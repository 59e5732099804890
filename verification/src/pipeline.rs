//! The per-job pipeline: download, image step, the two uploads, then one
//! outcome record — strictly in that order, any failure short-circuiting the
//! rest. The network calls themselves live with the caller, which drives the
//! steps and hands their outcomes back; every decision between them is made
//! and specified here.
use vstd::prelude::*;

verus! {

use crate::DOWNLOAD_SIZE_LIMIT;
use crate::codec::dec_chars;
use crate::download::accumulate_chunks;
use crate::download::download_error_desc;
use crate::download::fetch_model;
use crate::download::lemma_accumulate_aborts_over_limit;
use crate::download::lemma_accumulate_within_limit;
use crate::download::total_len;
use crate::model::DownloadResult;
use crate::model::DownloadTask;
use crate::processing::jpeg_dims;
use crate::processing::jpeg_thumb;
use crate::processing::process_image;

/// The two store writes a successfully processed job still owes: the
/// original bytes and the thumbnail, each with its destination path.
#[derive(Debug)]
pub struct UploadPlan {
    pub correlation_id: u32,
    pub original: Vec<u8>,
    pub original_path: String,
    pub thumbnail: Vec<u8>,
    pub thumbnail_path: String,
}

/// Runs the image step on a downloaded body: a decodable body yields the two
/// uploads the job owes, carrying the untouched original and the bounded
/// thumbnail; anything else yields the job's failure record at once.
pub fn plan_uploads(task: &DownloadTask, body: Vec<u8>) -> (r: Result<UploadPlan, DownloadResult>)
    ensures
        jpeg_dims(body@) is Some <==> r is Ok,
        r matches Ok(p) ==> p.correlation_id == task.correlation_id && p.original@ == body@
            && p.original_path@ == task.target_path@ && p.thumbnail@ == jpeg_thumb(body@)
            && p.thumbnail_path@ == task.target_thumbnail_path@,
        r is Ok ==> (jpeg_dims(jpeg_thumb(body@)) matches Some(d) && 1 <= d.0 <= 128 && 1 <= d.1
            <= 128),
        r matches Err(f) ==> f.correlation_id == task.correlation_id && f.res is Failed,
{
    match process_image(body) {
        Ok((original, thumbnail)) => Ok(
            UploadPlan {
                correlation_id: task.correlation_id,
                original,
                original_path: task.target_path.clone(),
                thumbnail,
                thumbnail_path: task.target_thumbnail_path.clone(),
            },
        ),
        Err(message) => Err(crate::model::failure_result_message(task.correlation_id, message)),
    }
}

/// Everything the environment decides about one job: the HTTP status and its
/// canonical reason, the body chunks the transport delivers, the decode
/// failure text where the body is no JPEG, and for each upload whether the
/// store accepted it or with which failure description it did not.
pub struct JobEnv {
    pub status: u16,
    pub reason: Option<Seq<char>>,
    pub chunks: Seq<Seq<u8>>,
    pub decode_failure: Seq<char>,
    pub upload_original_failure: Option<Seq<char>>,
    pub upload_thumbnail_failure: Option<Seq<char>>,
}

/// What one job leaves behind: whether its record reports success, the
/// record's failure description, and the uploads attempted, in order, each
/// with its destination path and payload.
pub struct JobTrace {
    pub ok: bool,
    pub description: Seq<char>,
    pub uploads: Seq<(Seq<char>, Seq<u8>)>,
}

/// The whole pipeline for one job, as a function of the task and of the
/// environment's outcomes: the fetch is bounded, a failure at any step stops
/// the job with that step's description and no further uploads, and only a
/// job that passed every step reports success with an empty description.
pub open spec fn job_trace(task: DownloadTask, env: JobEnv) -> JobTrace {
    match fetch_model(env.status, env.reason, env.chunks) {
        Err(d) => JobTrace { ok: false, description: d, uploads: seq![] },
        Ok(body) => {
            if jpeg_dims(body) is None {
                JobTrace { ok: false, description: env.decode_failure, uploads: seq![] }
            } else {
                let first = seq![(task.target_path@, body)];
                match env.upload_original_failure {
                    Some(d) => JobTrace { ok: false, description: d, uploads: first },
                    None => {
                        let both = first.push((task.target_thumbnail_path@, jpeg_thumb(body)));
                        match env.upload_thumbnail_failure {
                            Some(d) => JobTrace { ok: false, description: d, uploads: both },
                            None => JobTrace {
                                ok: true,
                                description: Seq::empty(),
                                uploads: both,
                            },
                        }
                    },
                }
            }
        },
    }
}

/// A job whose URL answers 200 with a decodable body within the size cap,
/// and whose uploads the store accepts, reports success with an empty
/// description and uploads exactly the original to the task's target path
/// and the derived thumbnail to the task's thumbnail path.
pub proof fn lemma_job_success(task: DownloadTask, env: JobEnv)
    requires
        env.status == 200,
        total_len(env.chunks) <= DOWNLOAD_SIZE_LIMIT,
        jpeg_dims(env.chunks.flatten()) is Some,
        env.upload_original_failure is None,
        env.upload_thumbnail_failure is None,
    ensures
        job_trace(task, env) == (JobTrace {
            ok: true,
            description: Seq::<char>::empty(),
            uploads: seq![
                (task.target_path@, env.chunks.flatten()),
                (task.target_thumbnail_path@, jpeg_thumb(env.chunks.flatten())),
            ],
        }),
{
    lemma_accumulate_within_limit(Seq::empty(), env.chunks);
    assert(Seq::<u8>::empty() + env.chunks.flatten() =~= env.chunks.flatten());
    assert(seq![(task.target_path@, env.chunks.flatten())].push(
        (task.target_thumbnail_path@, jpeg_thumb(env.chunks.flatten())),
    ) =~= seq![
        (task.target_path@, env.chunks.flatten()),
        (task.target_thumbnail_path@, jpeg_thumb(env.chunks.flatten())),
    ]);
}

/// A job whose URL answers anything but 200 attempts no upload, and its
/// record reports a download failure naming the HTTP reason.
pub proof fn lemma_job_non_200(task: DownloadTask, env: JobEnv)
    requires
        env.status != 200,
    ensures
        job_trace(task, env) == (JobTrace {
            ok: false,
            description: "DownloadError: "@ + download_error_desc(env.reason),
            uploads: seq![],
        }),
{
}

/// A job whose body chunks cumulatively pass the size cap attempts no
/// upload: the fetch aborts, and the record reports the cumulative byte
/// count at the abort, a count over the cap.
pub proof fn lemma_job_over_limit(task: DownloadTask, env: JobEnv) -> (n: nat)
    requires
        env.status == 200,
        total_len(env.chunks) > DOWNLOAD_SIZE_LIMIT,
    ensures
        n > DOWNLOAD_SIZE_LIMIT,
        job_trace(task, env) == (JobTrace {
            ok: false,
            description: "DownloadSizeLimitReached: "@ + dec_chars(n),
            uploads: seq![],
        }),
{
    lemma_accumulate_aborts_over_limit(Seq::empty(), env.chunks);
    accumulate_chunks(Seq::empty(), env.chunks)->Err_0
}

} // verus!
