//! One poll as a state machine.
//!
//! A poll asks its collaborators up to five questions, one after the other,
//! and what it asks next depends on what it was told. [`Poll`] is the state
//! between two questions, [`Reply`] is an answer, and [`Poll::advance`] is
//! the whole of the decision logic: it makes no call and depends on nothing
//! but its arguments.

use crate::application::clipboard_service::ProcessResult;
use crate::domain::color::Color;
use crate::domain::image_processor::{cleared, matches_in, try_make_transparent};
use crate::domain::port::{ImageData, ImageView};
use crate::domain::text::{decimal, decimal_digits};
use vstd::prelude::*;
use vstd::string::*;

verus! {

/// An answer of a collaborator.
#[derive(Debug, PartialEq, Eq)]
pub enum Reply {
    /// The clipboard's change counter.
    Count(u64),
    /// What the clipboard holds: an image, or nothing that is one.
    Image(Option<ImageData>),
    /// The configured target color.
    TargetColor(Color),
    /// The image was written to the clipboard.
    Written,
    /// The collaborator failed; the text says how.
    Failed(String),
}

/// A [`Reply`] as contracts see it.
pub enum ReplyView {
    Count(u64),
    Image(Option<ImageView>),
    TargetColor(Color),
    Written,
    Failed(Seq<char>),
}

impl View for Reply {
    type V = ReplyView;

    open spec fn view(&self) -> ReplyView {
        match self {
            Reply::Count(count) => ReplyView::Count(*count),
            Reply::Image(Some(image)) => ReplyView::Image(Some(image@)),
            Reply::Image(None) => ReplyView::Image(None),
            Reply::TargetColor(color) => ReplyView::TargetColor(*color),
            Reply::Written => ReplyView::Written,
            Reply::Failed(detail) => ReplyView::Failed(detail@),
        }
    }
}

/// A poll between two answers: what it has learned so far, and thereby what
/// it waits for. `last` is the fingerprint the poll started with: the counter
/// as it was last seen, or `None` where no counter was seen yet. `None` is
/// apart from every reading of the counter.
#[derive(Debug, PartialEq, Eq)]
pub enum Poll {
    /// Nothing is known yet: the change counter is wanted.
    Counting { last: Option<u64> },
    /// The counter has moved to `current`: the image is wanted.
    Reading { last: Option<u64>, current: u64 },
    /// An image was read: the target color is wanted.
    Coloring { last: Option<u64>, current: u64, image: ImageData },
    /// Pixels were cleared: `image` is to be written back.
    Writing { last: Option<u64>, image: ImageData },
    /// The image was written: the counter is wanted once more.
    Recounting { last: Option<u64> },
    /// The poll is over, with its result and the fingerprint to keep.
    Done { result: Result<ProcessResult, String>, fingerprint: Option<u64> },
}

/// A [`Poll`] as contracts see it.
pub enum PollView {
    Counting { last: Option<u64> },
    Reading { last: Option<u64>, current: u64 },
    Coloring { last: Option<u64>, current: u64, image: ImageView },
    Writing { last: Option<u64>, image: ImageView },
    Recounting { last: Option<u64> },
    Done { result: Result<ProcessResult, Seq<char>>, fingerprint: Option<u64> },
}

/// What a poll returns, with the text of an error as a sequence.
pub open spec fn result_view(result: Result<ProcessResult, String>) -> Result<
    ProcessResult,
    Seq<char>,
> {
    match result {
        Ok(outcome) => Ok(outcome),
        Err(message) => Err(message@),
    }
}

impl View for Poll {
    type V = PollView;

    open spec fn view(&self) -> PollView {
        match self {
            Poll::Counting { last } => PollView::Counting { last: *last },
            Poll::Reading { last, current } => PollView::Reading { last: *last, current: *current },
            Poll::Coloring { last, current, image } => PollView::Coloring {
                last: *last,
                current: *current,
                image: image@,
            },
            Poll::Writing { last, image } => PollView::Writing { last: *last, image: image@ },
            Poll::Recounting { last } => PollView::Recounting { last: *last },
            Poll::Done { result, fingerprint } => PollView::Done {
                result: result_view(*result),
                fingerprint: *fingerprint,
            },
        }
    }
}

/// How the error text for a buffer that is not made of whole pixels begins.
/// No other error of a poll begins so.
pub const MALFORMED_BUFFER: &'static str = "pixel buffer length must be a multiple of 4, got ";

/// The error text for a buffer of `len` bytes that is not made of whole pixels.
pub open spec fn malformed_message(len: nat) -> Seq<char> {
    MALFORMED_BUFFER@ + decimal_digits(len)
}

impl PollView {
    /// The poll before its first question, with the fingerprint kept from the
    /// poll before it; `None` for the first poll of all.
    pub open spec fn begin(last: Option<u64>) -> PollView {
        PollView::Counting { last }
    }

    /// Whether `reply` answers what the poll waits for. A failure answers
    /// every question; a poll that is over waits for nothing.
    pub open spec fn accepts(self, reply: ReplyView) -> bool {
        match self {
            PollView::Counting { .. } | PollView::Recounting { .. } => reply is Count
                || reply is Failed,
            PollView::Reading { .. } => reply is Image || reply is Failed,
            PollView::Coloring { .. } => reply is TargetColor || reply is Failed,
            PollView::Writing { .. } => reply is Written || reply is Failed,
            PollView::Done { .. } => false,
        }
    }

    /// How many questions the poll may still ask.
    pub open spec fn questions_left(self) -> nat {
        match self {
            PollView::Counting { .. } => 5,
            PollView::Reading { .. } => 4,
            PollView::Coloring { .. } => 3,
            PollView::Writing { .. } => 2,
            PollView::Recounting { .. } => 1,
            PollView::Done { .. } => 0,
        }
    }

    /// The fingerprint that stays if the poll fails from here.
    pub open spec fn kept(self) -> Option<u64> {
        match self {
            PollView::Counting { last } => last,
            PollView::Reading { last, .. } => last,
            PollView::Coloring { last, .. } => last,
            PollView::Writing { last, .. } => last,
            PollView::Recounting { last } => last,
            PollView::Done { fingerprint, .. } => fingerprint,
        }
    }

    /// The error text when the question the poll waits on fails with `detail`.
    pub open spec fn failure_message(self, detail: Seq<char>) -> Seq<char> {
        match self {
            PollView::Counting { .. } => "failed to read change count: "@ + detail,
            PollView::Reading { .. } => "failed to read clipboard: "@ + detail,
            PollView::Coloring { .. } => "failed to load config: "@ + detail,
            PollView::Writing { .. } => "failed to write clipboard: "@ + detail,
            PollView::Recounting { .. } => "failed to read change count after write: "@ + detail,
            PollView::Done { .. } => detail,
        }
    }

    /// The poll after `reply`.
    ///
    /// - A failure ends the poll with its message; the fingerprint stays.
    /// - A counter equal to the one the fingerprint holds ends the poll as
    ///   `Skipped`. A fingerprint that holds none equals no counter: the
    ///   first poll of all is never skipped.
    /// - No image ends the poll as `NoImage`; the counter read becomes the
    ///   fingerprint.
    /// - With image and target color the scan is made. A buffer that is not
    ///   made of whole pixels ends the poll with an error and the fingerprint
    ///   stays. If no pixel matches, the poll ends as `Processed` without a
    ///   write, and the counter read becomes the fingerprint. Otherwise the
    ///   cleared image is to be written.
    /// - After the write the counter is read again, and that reading becomes
    ///   the fingerprint of a poll that ends as `Processed`.
    /// - A reply that the poll does not wait for changes nothing.
    pub open spec fn advance(self, reply: ReplyView) -> PollView {
        if !self.accepts(reply) {
            self
        } else if let ReplyView::Failed(detail) = reply {
            PollView::Done { result: Err(self.failure_message(detail)), fingerprint: self.kept() }
        } else {
            match self {
                PollView::Counting { last } => {
                    let current = reply->Count_0;
                    if last == Some(current) {
                        PollView::Done { result: Ok(ProcessResult::Skipped), fingerprint: last }
                    } else {
                        PollView::Reading { last, current }
                    }
                },
                PollView::Reading { last, current } => match reply->Image_0 {
                    Some(image) => PollView::Coloring { last, current, image },
                    None => PollView::Done {
                        result: Ok(ProcessResult::NoImage),
                        fingerprint: Some(current),
                    },
                },
                PollView::Coloring { last, current, image } => {
                    let target = reply->TargetColor_0;
                    if !image.has_whole_pixels() {
                        PollView::Done {
                            result: Err(malformed_message(image.pixels.len())),
                            fingerprint: last,
                        }
                    } else if matches_in(image.pixels, target) == 0 {
                        PollView::Done {
                            result: Ok(ProcessResult::Processed),
                            fingerprint: Some(current),
                        }
                    } else {
                        PollView::Writing {
                            last,
                            image: ImageView {
                                pixels: cleared(image.pixels, target),
                                width: image.width,
                                height: image.height,
                            },
                        }
                    }
                },
                PollView::Writing { last, .. } => PollView::Recounting { last },
                PollView::Recounting { .. } => PollView::Done {
                    result: Ok(ProcessResult::Processed),
                    fingerprint: Some(reply->Count_0),
                },
                PollView::Done { .. } => self,
            }
        }
    }

    /// The poll after it has taken the replies, first to last.
    pub open spec fn after(self, replies: Seq<ReplyView>) -> PollView
        decreases replies.len(),
    {
        if replies.len() == 0 {
            self
        } else {
            self.after(replies.drop_last()).advance(replies.last())
        }
    }

    /// Whether the replies are a conversation with the poll: each of them,
    /// when it comes, answers the question that the poll then waits on.
    pub open spec fn converses(self, replies: Seq<ReplyView>) -> bool
        decreases replies.len(),
    {
        replies.len() == 0 || (self.converses(replies.drop_last()) && self.after(
            replies.drop_last(),
        ).accepts(replies.last()))
    }

    /// Where a poll that was begun with the fingerprint `first` can stand:
    /// until it has ended well it has kept `first`, it reads the image only
    /// after the counter has moved, and it writes whole pixels only. It ends
    /// as `Skipped` only where `first` holds a counter, and a poll that ends
    /// well leaves a fingerprint that holds one.
    pub open spec fn on_course(self, first: Option<u64>) -> bool {
        match self {
            PollView::Counting { last } => last == first,
            PollView::Reading { last, current } => last == first && first != Some(current),
            PollView::Coloring { last, current, .. } => last == first && first != Some(current),
            PollView::Writing { last, image } => last == first && image.has_whole_pixels(),
            PollView::Recounting { last } => last == first,
            PollView::Done { result, fingerprint } => match result {
                Ok(ProcessResult::Processed) => fingerprint is Some,
                Ok(ProcessResult::NoImage) => fingerprint is Some && fingerprint != first,
                Ok(ProcessResult::Skipped) => fingerprint is Some && fingerprint == first,
                Err(_) => fingerprint == first,
            },
        }
    }

    /// Every answer that a poll waits for brings it closer to its end: a
    /// poll asks at most five questions.
    pub proof fn lemma_answer_moves_poll_on(self, reply: ReplyView)
        requires
            self.accepts(reply),
        ensures
            self.advance(reply).questions_left() < self.questions_left() <= 5,
    {
    }

    /// Whatever the collaborators answer, a poll stays on its course.
    ///
    /// So a poll that fails leaves the fingerprint as it was, whichever
    /// question failed; so does a poll that is skipped; and a poll that
    /// finds no image has moved the fingerprint.
    pub proof fn lemma_poll_stays_on_course(last: Option<u64>, replies: Seq<ReplyView>)
        ensures
            PollView::begin(last).after(replies).on_course(last),
        decreases replies.len(),
    {
        if replies.len() > 0 {
            Self::lemma_poll_stays_on_course(last, replies.drop_last());
        }
    }

    /// The first poll of all is never skipped. A poll that is begun with a
    /// fingerprint that holds no counter does not end as `Skipped`,
    /// whatever the collaborators answer, and whatever the counter reads: no
    /// reading is taken for "nothing has changed" before anything was seen.
    pub proof fn lemma_first_poll_is_never_skipped(replies: Seq<ReplyView>)
        ensures
            !(PollView::begin(None).after(replies) matches PollView::Done {
                result: Ok(ProcessResult::Skipped),
                ..
            }),
    {
        Self::lemma_poll_stays_on_course(None, replies);
    }
}

/// Whether a poll that is begun with the fingerprint `last` can end with
/// `result` and `fingerprint`: whether some conversation leads it there.
pub open spec fn poll_can_end(
    last: Option<u64>,
    result: Result<ProcessResult, Seq<char>>,
    fingerprint: Option<u64>,
) -> bool {
    exists|replies: Seq<ReplyView>|
        PollView::begin(last).converses(replies) && #[trigger] PollView::begin(last).after(
            replies,
        ) == (PollView::Done { result, fingerprint })
}

/// Ends a poll with the failure of the question it waited on.
fn fail(prefix: &str, detail: String, last: Option<u64>) -> (next: Poll)
    ensures
        next@ == (PollView::Done { result: Err(prefix@ + detail@), fingerprint: last }),
{
    let mut message = String::from_str(prefix);
    message.append(detail.as_str());
    Poll::Done { result: Err(message), fingerprint: last }
}

/// Scans the image that was read for the target color and decides what
/// follows: an error, the end of the poll, or a write.
fn scan(last: Option<u64>, current: u64, image: ImageData, target: Color) -> (next: Poll)
    ensures
        next@ == (PollView::Coloring { last, current, image: image@ }).advance(
            ReplyView::TargetColor(target),
        ),
{
    let mut image = image;
    match try_make_transparent(image.pixels.as_mut_slice(), &target) {
        None => {
            let mut message = String::from_str(MALFORMED_BUFFER);
            message.append(decimal(image.pixels.len()).as_str());
            Poll::Done { result: Err(message), fingerprint: last }
        },
        Some(changed) => if changed == 0 {
            Poll::Done { result: Ok(ProcessResult::Processed), fingerprint: Some(current) }
        } else {
            Poll::Writing { last, image }
        },
    }
}

impl Poll {
    /// Starts a poll with the fingerprint kept from the poll before it;
    /// `None` for the first poll of all.
    pub fn begin(last: Option<u64>) -> (poll: Poll)
        ensures
            poll@ == PollView::begin(last),
    {
        Poll::Counting { last }
    }

    /// Takes an answer and moves the poll on. See [`PollView::advance`] for
    /// what follows from which answer.
    pub fn advance(self, reply: Reply) -> (next: Poll)
        ensures
            next@ == self@.advance(reply@),
    {
        match self {
            Poll::Counting { last } => match reply {
                Reply::Count(current) => {
                    let unmoved = match last {
                        Some(seen) => seen == current,
                        None => false,
                    };
                    if unmoved {
                        Poll::Done { result: Ok(ProcessResult::Skipped), fingerprint: last }
                    } else {
                        Poll::Reading { last, current }
                    }
                },
                Reply::Failed(detail) => fail("failed to read change count: ", detail, last),
                _ => Poll::Counting { last },
            },
            Poll::Reading { last, current } => match reply {
                Reply::Image(Some(image)) => Poll::Coloring { last, current, image },
                Reply::Image(None) => Poll::Done {
                    result: Ok(ProcessResult::NoImage),
                    fingerprint: Some(current),
                },
                Reply::Failed(detail) => fail("failed to read clipboard: ", detail, last),
                _ => Poll::Reading { last, current },
            },
            Poll::Coloring { last, current, image } => match reply {
                Reply::TargetColor(target) => scan(last, current, image, target),
                Reply::Failed(detail) => fail("failed to load config: ", detail, last),
                _ => Poll::Coloring { last, current, image },
            },
            Poll::Writing { last, image } => match reply {
                Reply::Written => Poll::Recounting { last },
                Reply::Failed(detail) => fail("failed to write clipboard: ", detail, last),
                _ => Poll::Writing { last, image },
            },
            Poll::Recounting { last } => match reply {
                Reply::Count(current) => Poll::Done {
                    result: Ok(ProcessResult::Processed),
                    fingerprint: Some(current),
                },
                Reply::Failed(detail) => fail(
                    "failed to read change count after write: ",
                    detail,
                    last,
                ),
                _ => Poll::Recounting { last },
            },
            Poll::Done { result, fingerprint } => Poll::Done { result, fingerprint },
        }
    }
}

} // verus!
