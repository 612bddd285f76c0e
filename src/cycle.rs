//! One turn of the player loop, as decisions: what to publish, what to play,
//! how long to wait, and what to do once the viewer is done.

use crate::queue::{queue_ok, ReplayQueue};
use crate::resolve::ResolveFailure;
use crate::target::{
    classified, classify, form_encoded, label_of, playable_url, PlayTarget, TargetError,
};
use vstd::prelude::*;
use vstd::utf8::encode_utf8;

verus! {

/// Wait after a failed resolution or a viewer that could not be started.
pub const RETRY_BACKOFF_SECS: u64 = 15;

/// Wait after a turn that found nothing to play.
pub const IDLE_BACKOFF_SECS: u64 = 5;

/// Longest time the viewer may run before it is terminated.
pub const VIEWER_TIMEOUT_SECS: u64 = 2100;

/// A lifecycle event, published to every subscriber.
pub enum Event {
    /// The metadata of every queued item, in play order.
    QueueUpdated(Vec<serde_json::Value>),
    /// Playback began: the playable address and the head item's metadata.
    PlaybackStarted(String, serde_json::Value),
    /// The head item has been played and removed.
    PlaybackCompleted,
}

/// Relies on `Clone` of `serde_json::Value`, which copies the document.
#[verifier::external_body]
fn copy_document(v: &serde_json::Value) -> (r: serde_json::Value)
    ensures
        r == *v,
{
    v.clone()
}

/// What a turn does once the queue has been refilled and resolved.
pub enum CyclePlan {
    /// Resolution failed: publish nothing, wait, start over.
    Retry { backoff_secs: u64 },
    /// Nothing to play: publish `update`, wait, start over.
    Idle { update: Event, backoff_secs: u64 },
    /// The head's name gives no target: it has left the queue, its file is
    /// kept; publish `update`, wait, start over.
    Skip { update: Event, error: TargetError, backoff_secs: u64 },
    /// Publish `update`, then `started`, then play `target`.
    Play { update: Event, target: PlayTarget, started: Event },
}

/// The update event of a resolved turn holds exactly `docs`.
pub open spec fn updates_with(e: Event, docs: Seq<serde_json::Value>) -> bool {
    e matches Event::QueueUpdated(v) && v@ == docs
}

/// Plans a turn from the refilled queue and its resolution.
pub fn plan_cycle(
    queue: &mut ReplayQueue,
    resolution: Result<Vec<serde_json::Value>, ResolveFailure>,
    base_url: &String,
) -> (r: CyclePlan)
    requires
        queue_ok(old(queue)@),
        resolution matches Ok(docs) ==> docs@.len() == old(queue)@.len(),
    ensures
        queue_ok(final(queue)@),
        resolution is Err ==> r == (CyclePlan::Retry { backoff_secs: RETRY_BACKOFF_SECS })
            && final(queue)@ == old(queue)@,
        resolution matches Ok(docs) ==> {
            if docs@.len() == 0 || old(queue)@.len() == 0 {
                &&& r matches CyclePlan::Idle { update, backoff_secs }
                &&& updates_with(update, docs@)
                &&& backoff_secs == IDLE_BACKOFF_SECS
                &&& final(queue)@ == old(queue)@
            } else {
                match r {
                    CyclePlan::Skip { update, error, backoff_secs } => {
                        &&& updates_with(update, docs@)
                        &&& classified(old(queue)@[0], Err(error))
                        &&& backoff_secs == RETRY_BACKOFF_SECS
                        &&& final(queue)@ == old(queue)@.drop_first()
                    },
                    CyclePlan::Play { update, target, started } => {
                        &&& updates_with(update, docs@)
                        &&& classified(old(queue)@[0], Ok(target))
                        &&& started matches Event::PlaybackStarted(url, doc)
                        &&& url@ == base_url@ + form_encoded(encode_utf8(label_of(target)))
                        &&& doc == docs@[0]
                        &&& final(queue)@ == old(queue)@
                    },
                    _ => false,
                }
            }
        },
{
    match resolution {
        Err(_) => CyclePlan::Retry { backoff_secs: RETRY_BACKOFF_SECS },
        Ok(docs) => {
            if docs.len() == 0 || queue.is_empty() {
                CyclePlan::Idle { update: Event::QueueUpdated(docs), backoff_secs: IDLE_BACKOFF_SECS }
            } else {
                let head_doc = copy_document(&docs[0]);
                let classification = classify(queue.get(0));
                match classification {
                    Err(error) => {
                        let _ = queue.pop_head();
                        CyclePlan::Skip {
                            update: Event::QueueUpdated(docs),
                            error,
                            backoff_secs: RETRY_BACKOFF_SECS,
                        }
                    },
                    Ok(target) => {
                        let url = playable_url(base_url, &target);
                        CyclePlan::Play {
                            update: Event::QueueUpdated(docs),
                            target,
                            started: Event::PlaybackStarted(url, head_doc),
                        }
                    },
                }
            }
        },
    }
}

/// Which came first while the viewer ran.
pub enum Race {
    /// The viewer exited on its own.
    Exited,
    /// The timeout elapsed first.
    DeadlineElapsed,
}

/// What the supervisor does next with the viewer process.
pub enum Directive {
    /// Wait for the exit status.
    Collect,
    /// Terminate the viewer, then wait for its exit status.
    TerminateThenCollect,
}

/// The supervisor's reaction to the race between the viewer and the timeout:
/// the viewer is terminated exactly when the timeout came first.
pub fn on_race(race: Race) -> (r: Directive)
    ensures
        race is DeadlineElapsed <==> r is TerminateThenCollect,
{
    match race {
        Race::Exited => Directive::Collect,
        Race::DeadlineElapsed => Directive::TerminateThenCollect,
    }
}

/// How a playback attempt ended.
pub enum PlaybackOutcome {
    /// The viewer could not be started.
    Unlaunched,
    /// The viewer ran and is gone, whether it exited or was terminated.
    Ended,
}

/// What follows a playback attempt.
pub enum Completion {
    /// The head stays queued and no file is deleted. Where the file was
    /// renamed for playback, `rename_back` names what it is renamed back to.
    Retry { rename_back: Option<String>, backoff_secs: u64 },
    /// The file `delete` is removed, then `event` is published.
    Done { delete: String, event: Event },
}

/// Settles a playback attempt of the head item, played as `target`: an ended
/// playback removes the head and deletes the file that was played; a viewer
/// that could not be started leaves the queue as it is.
pub fn complete(queue: &mut ReplayQueue, target: &PlayTarget, outcome: PlaybackOutcome) -> (r: Completion)
    requires
        queue_ok(old(queue)@),
        old(queue)@.len() > 0,
    ensures
        queue_ok(final(queue)@),
        outcome is Unlaunched ==> final(queue)@ == old(queue)@ && (r matches Completion::Retry { rename_back, backoff_secs }
            && backoff_secs == RETRY_BACKOFF_SECS
            && (target is Direct ==> rename_back is None)
            && (target matches PlayTarget::Encoded { stored, .. } ==> (rename_back matches Some(s) && s@ == stored@))),
        outcome is Ended ==> final(queue)@ == old(queue)@.drop_first() && !final(queue)@.contains(old(queue)@[0])
            && (r matches Completion::Done { delete, event } && event is PlaybackCompleted
            && (target matches PlayTarget::Direct { name } ==> delete@ == name@)
            && (target is Encoded ==> delete@ == crate::target::CANONICAL_NAME@)),
{
    match outcome {
        PlaybackOutcome::Unlaunched => Completion::Retry {
            rename_back: target.rename_from(),
            backoff_secs: RETRY_BACKOFF_SECS,
        },
        PlaybackOutcome::Ended => {
            let ghost start = queue@;
            let _ = queue.pop_head();
            proof {
                crate::queue::lemma_drop_first_ok(start);
            }
            Completion::Done { delete: target.launch_name(), event: Event::PlaybackCompleted }
        },
    }
}

} // verus!
