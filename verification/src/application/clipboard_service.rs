//! The clipboard service: runs one poll against the clipboard and the
//! configuration and keeps the fingerprint between polls.

use crate::application::poll::{poll_can_end, result_view, Poll, PollView, Reply, ReplyView};
use crate::domain::port::{ClipboardPort, ConfigPort};
use vstd::prelude::*;

verus! {

/// Result of processing a clipboard image.
#[derive(Debug, Clone, Copy, PartialEq, Eq, Structural)]
pub enum ProcessResult {
    /// An image was found and processed successfully.
    Processed,
    /// No image was found on the clipboard.
    NoImage,
    /// The clipboard has not changed since the last check (skipped).
    Skipped,
}

/// Orchestrates the clipboard-to-transparent-image workflow.
///
/// Reads an image from the clipboard, applies transparency conversion for
/// the configured target color, and writes the result back.
///
/// The service keeps one fingerprint between polls: the change counter of the
/// clipboard as it last saw it, or `None` as long as it has seen none. A poll
/// that finds the counter where the fingerprint is does nothing. After
/// writing an image back, the service reads the counter again and keeps that
/// reading, so that its own write is not taken for new content by the next
/// poll.
#[derive(Debug)]
pub struct ClipboardService<C, G> where C: ClipboardPort, G: ConfigPort {
    clipboard: C,
    config: G,
    /// The clipboard change counter after the last write (or initial check);
    /// `None` until a poll has ended well.
    last_change_count: Option<u64>,
}

impl<C, G> ClipboardService<C, G> where C: ClipboardPort, G: ConfigPort {
    /// The clipboard provider, for use in contracts.
    pub closed spec fn spec_clipboard(&self) -> &C {
        &self.clipboard
    }

    /// The configuration provider, for use in contracts.
    pub closed spec fn spec_config(&self) -> &G {
        &self.config
    }

    /// The fingerprint, for use in contracts.
    pub closed spec fn spec_last_change_count(&self) -> Option<u64> {
        self.last_change_count
    }

    /// Creates a new service with the given clipboard and config providers.
    /// Its fingerprint is `None`, "nothing seen yet", which is apart from
    /// every reading of the counter: the first poll is never skipped.
    pub fn new(clipboard: C, config: G) -> (service: Self)
        ensures
            *service.clipboard() == clipboard,
            *service.config() == config,
            service.last_change_count() is None,
    {
        Self { clipboard, config, last_change_count: None }
    }

    /// The clipboard provider.
    #[verifier::when_used_as_spec(spec_clipboard)]
    pub fn clipboard(&self) -> (clipboard: &C)
        ensures
            clipboard == self.clipboard(),
    {
        &self.clipboard
    }

    /// The configuration provider.
    #[verifier::when_used_as_spec(spec_config)]
    pub fn config(&self) -> (config: &G)
        ensures
            config == self.config(),
    {
        &self.config
    }

    /// The fingerprint: the change counter as the service last saw it, or
    /// `None` if it has seen none yet.
    #[verifier::when_used_as_spec(spec_last_change_count)]
    pub fn last_change_count(&self) -> (count: Option<u64>)
        ensures
            count == self.last_change_count(),
    {
        self.last_change_count
    }

    /// Puts the question that `poll` waits on to the collaborator it is
    /// meant for, and hands back the answer.
    fn ask(&self, poll: &Poll) -> (reply: Reply)
        requires
            !(poll@ is Done),
            poll@ matches PollView::Writing { image, .. } ==> image.has_whole_pixels(),
        ensures
            poll@.accepts(reply@),
    {
        match poll {
            Poll::Counting { .. } | Poll::Recounting { .. } => match self.clipboard.change_count() {
                Ok(count) => Reply::Count(count),
                Err(e) => Reply::Failed(e.to_string()),
            },
            Poll::Reading { .. } => match self.clipboard.get_image() {
                Ok(image) => Reply::Image(image),
                Err(e) => Reply::Failed(e.to_string()),
            },
            Poll::Coloring { .. } => match self.config.load_target_color() {
                Ok(color) => Reply::TargetColor(color),
                Err(e) => Reply::Failed(e.to_string()),
            },
            Poll::Writing { image, .. } => match self.clipboard.set_image(image) {
                Ok(()) => Reply::Written,
                Err(e) => Reply::Failed(e.to_string()),
            },
            Poll::Done { .. } => Reply::Written,
        }
    }

    /// Processes the current clipboard image.
    ///
    /// 1. Reads the clipboard change counter.
    /// 2. If it is where the fingerprint is, returns `Skipped` without
    ///    reading the image.
    /// 3. Reads the image from the clipboard; without one, returns `NoImage`.
    /// 4. Loads the target color from configuration.
    /// 5. Makes matching pixels transparent.
    /// 6. If any pixel matched, writes the image back and reads the counter
    ///    again.
    /// 7. Keeps the counter as the new fingerprint and returns `Processed`.
    ///
    /// What the collaborators answer is not known beforehand. Whatever they
    /// answer, there is a conversation, every reply in it an answer to the
    /// question the poll then waited on, that leads a poll begun with the
    /// old fingerprint to its end by [`PollView::advance`]; the result and
    /// the new fingerprint are those of that end. In particular a poll that
    /// fails or is skipped leaves the fingerprint as it was, a poll that ends
    /// well leaves a fingerprint that holds a counter, and the first poll of
    /// a new service is never skipped.
    ///
    /// # Errors
    ///
    /// Returns an error text if any clipboard or config operation fails, or
    /// if the clipboard hands over a buffer that is not made of whole pixels.
    pub fn process_clipboard(&mut self) -> (res: Result<ProcessResult, String>)
        ensures
            final(self).clipboard() == old(self).clipboard(),
            final(self).config() == old(self).config(),
            poll_can_end(
                old(self).last_change_count(),
                result_view(res),
                final(self).last_change_count(),
            ),
            res is Err ==> final(self).last_change_count() == old(self).last_change_count(),
            res matches Ok(ProcessResult::Skipped) ==> final(self).last_change_count() == old(
                self,
            ).last_change_count(),
            res matches Ok(ProcessResult::NoImage) ==> final(self).last_change_count() != old(
                self,
            ).last_change_count(),
            res is Ok ==> final(self).last_change_count() is Some,
            old(self).last_change_count() is None ==> !(res matches Ok(ProcessResult::Skipped)),
    {
        let mut poll = Poll::begin(self.last_change_count);
        let ghost start = poll@;
        let ghost mut replies: Seq<ReplyView> = Seq::empty();
        loop
            invariant
                *self == *old(self),
                start == PollView::begin(old(self).last_change_count()),
                start.converses(replies),
                poll@ == start.after(replies),
            decreases poll@.questions_left(),
        {
            proof {
                PollView::lemma_poll_stays_on_course(old(self).last_change_count(), replies);
            }
            match poll {
                Poll::Done { result, fingerprint } => {
                    self.last_change_count = fingerprint;
                    return result;
                },
                waiting => {
                    let reply = self.ask(&waiting);
                    proof {
                        waiting@.lemma_answer_moves_poll_on(reply@);
                        assert(replies.push(reply@).drop_last() =~= replies);
                        replies = replies.push(reply@);
                    }
                    poll = waiting.advance(reply);
                },
            }
        }
    }
}

} // verus!
