//! The events the services hand each other over the event bus.
use vstd::prelude::*;
use crate::text::{owned, concat2, json_quote, push_json_string};

verus! {

/// An event on the bus: an S3 object landed that a target listens for, or a
/// Lambda function is invoked without waiting for its result.
#[derive(Debug, Clone)]
pub enum BusEvent {
    S3Notification { bucket: String, key: String, target_arn: String, target_type: String },
    LambdaInvocation { function_arn: String, payload: String },
}

/// The notification sent when an EMR job run succeeds: its `_SUCCESS` marker
/// in the bucket `emr-{vc_id}`, addressed to the job run.
pub fn emr_success_event(vc_id: &str, job_id: &str) -> (e: BusEvent)
    ensures
        e matches BusEvent::S3Notification { bucket, key, target_arn, target_type }
            && bucket@ == "emr-"@ + vc_id@
            && key@ == "jobs/"@ + job_id@ + "/_SUCCESS"@
            && target_arn@ == "arn:aws:emr-containers:us-east-1:000000000000:/virtualclusters/"@ + vc_id@ + "/jobruns/"@ + job_id@
            && target_type@ == "emr"@,
{
    let bucket = concat2("emr-", vc_id);
    let mut key = concat2("jobs/", job_id);
    key.append("/_SUCCESS");
    let mut arn = concat2("arn:aws:emr-containers:us-east-1:000000000000:/virtualclusters/", vc_id);
    arn.append("/jobruns/");
    arn.append(job_id);
    BusEvent::S3Notification { bucket, key, target_arn: arn, target_type: owned("emr") }
}

/// Whether a notification is to run a Lambda function directly.
pub fn targets_lambda(target_type: &str) -> (b: bool)
    ensures b == (target_type@ == "Lambda"@),
{
    crate::text::str_eq(target_type, "Lambda")
}


/// What the Lambda trigger does with an event: for an S3 notification, run
/// the function the notification names where it targets Lambda, then every
/// function mapped to the bucket's ARN (`arn:aws:s3:::{bucket}`), each with the
/// S3 payload of the bucket and key; any other event is ignored.
pub enum TriggerPlan {
    Ignore,
    Dispatch { direct_arn: Option<String>, source_arn: String, bucket: String, key: String },
}

/// Plans what the Lambda trigger does with an event.
pub fn trigger_plan(event: &BusEvent) -> (p: TriggerPlan)
    ensures
        match *event {
            BusEvent::S3Notification { bucket, key, target_arn, target_type } =>
                p matches TriggerPlan::Dispatch { direct_arn, source_arn, bucket: b, key: k }
                    && b@ == bucket@ && k@ == key@
                    && source_arn@ == "arn:aws:s3:::"@ + bucket@
                    && (target_type@ == "Lambda"@ ==> (direct_arn matches Some(a) && a@ == target_arn@))
                    && (target_type@ != "Lambda"@ ==> direct_arn is None),
            BusEvent::LambdaInvocation { .. } => p is Ignore,
        },
{
    match event {
        BusEvent::S3Notification { bucket, key, target_arn, target_type } => {
            let direct_arn = if targets_lambda(target_type.as_str()) { Some(target_arn.clone()) } else { None };
            TriggerPlan::Dispatch {
                direct_arn,
                source_arn: concat2("arn:aws:s3:::", bucket.as_str()),
                bucket: bucket.clone(),
                key: key.clone(),
            }
        }
        BusEvent::LambdaInvocation { .. } => TriggerPlan::Ignore,
    }
}

/// The event a function triggered by an S3 notification is handed: one
/// `ObjectCreated:Put` record of the bucket and key, as compact JSON with the
/// keys of each object in order.
pub open spec fn s3_payload(bucket: Seq<char>, key: Seq<char>) -> Seq<char> {
    "{\"Records\":[{\"eventName\":\"ObjectCreated:Put\",\"eventSource\":\"aws:s3\",\"s3\":{\"bucket\":{\"name\":"@
        + json_quote(bucket) + "},\"object\":{\"key\":"@ + json_quote(key) + "}}}]}"@
}

/// Builds the event a triggered function is handed for an object landed at
/// `bucket`/`key`.
pub fn build_s3_payload(bucket: &str, key: &str) -> (r: String)
    ensures r@ == s3_payload(bucket@, key@),
{
    let mut r = owned("{\"Records\":[{\"eventName\":\"ObjectCreated:Put\",\"eventSource\":\"aws:s3\",\"s3\":{\"bucket\":{\"name\":");
    push_json_string(&mut r, bucket);
    r.append("},\"object\":{\"key\":");
    push_json_string(&mut r, key);
    r.append("}}}]}");
    r
}
} // verus!
