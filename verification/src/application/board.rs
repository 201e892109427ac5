//! A faithful clipboard, and what polls do against it.
//!
//! Nothing is known of the collaborators that a service is given. The laws
//! of this file say what polls come to if the collaborators are faithful:
//! if the clipboard answers with what it holds, moves its counter when it is
//! written to, and is touched by nobody else while a poll runs, and if the
//! configuration answers with the target color.

use crate::application::clipboard_service::ProcessResult;
use crate::application::poll::{malformed_message, poll_can_end, PollView, ReplyView};
use crate::domain::color::Color;
use crate::domain::image_processor::{
    cleared, lemma_scan_without_match_changes_nothing, matches_in,
};
use crate::domain::port::ImageView;
use vstd::prelude::*;

verus! {

/// The clipboard as a faithful provider presents it: what it holds, and where
/// its change counter stands.
pub struct Board {
    pub image: Option<ImageView>,
    pub counter: u64,
}

impl PollView {
    /// What faithful collaborators answer to the question the poll waits on:
    /// a clipboard that presents `board`, and a configuration that holds
    /// `target`. Neither fails.
    pub open spec fn faithful_reply(self, board: Board, target: Color) -> ReplyView {
        match self {
            PollView::Counting { .. } | PollView::Recounting { .. } => ReplyView::Count(
                board.counter,
            ),
            PollView::Reading { .. } => ReplyView::Image(board.image),
            PollView::Coloring { .. } => ReplyView::TargetColor(target),
            PollView::Writing { .. } | PollView::Done { .. } => ReplyView::Written,
        }
    }

    /// The clipboard after the question was served. Only a write changes it:
    /// it then holds the image written, and its counter stands at `bumped`.
    pub open spec fn board_after(self, board: Board, bumped: u64) -> Board {
        match self {
            PollView::Writing { image, .. } => Board { image: Some(image), counter: bumped },
            _ => board,
        }
    }

    /// The poll run to its end against faithful collaborators, while nobody
    /// else touches the clipboard: the poll at its end, and the clipboard
    /// then.
    pub open spec fn settle(self, board: Board, target: Color, bumped: u64) -> (PollView, Board)
        decreases self.questions_left(),
    {
        if self is Done {
            (self, board)
        } else {
            self.advance(self.faithful_reply(board, target)).settle(
                self.board_after(board, bumped),
                target,
                bumped,
            )
        }
    }

    /// To take one reply and then further replies is to take them all, that
    /// reply first; and if the poll waited for the reply, and the
    /// rest is a conversation with the poll after it, the whole is a
    /// conversation.
    pub proof fn lemma_after_first_reply(self, first: ReplyView, rest: Seq<ReplyView>)
        ensures
            self.after(seq![first] + rest) == self.advance(first).after(rest),
            self.accepts(first) && self.advance(first).converses(rest) ==> self.converses(
                seq![first] + rest,
            ),
        decreases rest.len(),
    {
        let all = seq![first] + rest;
        if rest.len() == 0 {
            assert(all.drop_last() =~= Seq::<ReplyView>::empty());
            assert(self.after(all.drop_last()) == self);
            assert(self.converses(all.drop_last()));
        } else {
            self.lemma_after_first_reply(first, rest.drop_last());
            assert(all.drop_last() =~= seq![first] + rest.drop_last());
        }
    }

    /// A poll against faithful collaborators comes to an end, and it is one
    /// of the conversations of the poll: the replies of faithful
    /// collaborators are replies. What holds of every conversation holds of
    /// it.
    pub proof fn lemma_settle_is_a_conversation(
        self,
        board: Board,
        target: Color,
        bumped: u64,
    )
        ensures
            self.settle(board, target, bumped).0 is Done,
            exists|replies: Seq<ReplyView>|
                self.converses(replies) && #[trigger] self.after(replies) == self.settle(
                    board,
                    target,
                    bumped,
                ).0,
        decreases self.questions_left(),
    {
        if self is Done {
            let nothing = Seq::<ReplyView>::empty();
            assert(self.converses(nothing) && self.after(nothing) == self.settle(
                board,
                target,
                bumped,
            ).0);
        } else {
            let reply = self.faithful_reply(board, target);
            let next = self.advance(reply);
            let end = self.settle(board, target, bumped).0;
            next.lemma_settle_is_a_conversation(self.board_after(board, bumped), target, bumped);
            let rest = choose|rest: Seq<ReplyView>|
                next.converses(rest) && #[trigger] next.after(rest) == end;
            self.lemma_after_first_reply(reply, rest);
            assert(self.converses(seq![reply] + rest) && self.after(seq![reply] + rest) == end);
        }
    }
}

/// One poll against faithful collaborators, begun with the fingerprint
/// `last`: the poll at its end, and the clipboard then.
pub open spec fn poll_once(last: Option<u64>, board: Board, target: Color, bumped: u64) -> (
    PollView,
    Board,
) {
    PollView::begin(last).settle(board, target, bumped)
}

/// A poll against faithful collaborators ends, and ends as a poll can end:
/// with a result and a fingerprint that some conversation leads to.
pub proof fn lemma_faithful_poll_can_end(
    last: Option<u64>,
    board: Board,
    target: Color,
    bumped: u64,
)
    ensures
        poll_once(last, board, target, bumped).0 matches PollView::Done { result, fingerprint }
            && poll_can_end(last, result, fingerprint),
{
    PollView::begin(last).lemma_settle_is_a_conversation(board, target, bumped);
}

/// The fingerprint and the clipboard after `polls` polls in a row, the first
/// of them begun with the fingerprint `last`.
pub open spec fn after_polls(
    last: Option<u64>,
    board: Board,
    target: Color,
    bumped: u64,
    polls: nat,
) -> (Option<u64>, Board)
    decreases polls,
{
    if polls == 0 {
        (last, board)
    } else {
        let (kept, between) = after_polls(last, board, target, bumped, (polls - 1) as nat);
        let (end, after) = poll_once(kept, between, target, bumped);
        (end.kept(), after)
    }
}

/// A poll that finds the counter where the fingerprint is ends as `Skipped`:
/// it reads no image, writes nothing and keeps the fingerprint.
pub proof fn lemma_unmoved_counter_is_skipped(
    last: Option<u64>,
    board: Board,
    target: Color,
    bumped: u64,
)
    requires
        last == Some(board.counter),
    ensures
        poll_once(last, board, target, bumped) == (
            PollView::Done { result: Ok(ProcessResult::Skipped), fingerprint: last },
            board,
        ),
{
    reveal_with_fuel(PollView::settle, 3);
}

/// A poll that finds no image on the clipboard, be it the first poll of all
/// or one that finds the counter moved, ends as `NoImage`. It writes nothing,
/// and the counter it read becomes the fingerprint.
pub proof fn lemma_empty_clipboard_is_noted(
    last: Option<u64>,
    board: Board,
    target: Color,
    bumped: u64,
)
    requires
        last != Some(board.counter),
        board.image is None,
    ensures
        poll_once(last, board, target, bumped) == (
            PollView::Done {
                result: Ok(ProcessResult::NoImage),
                fingerprint: Some(board.counter),
            },
            board,
        ),
{
    reveal_with_fuel(PollView::settle, 4);
}

/// A poll that finds an image of whole pixels on the clipboard, be it the
/// first poll of all or one that finds the counter moved, ends as
/// `Processed`. Afterwards the clipboard holds that image
/// with every pixel of the target color transparent and nothing else
/// changed, and the fingerprint is where the counter stands. If no pixel
/// matched, nothing was written: the clipboard is as it was, its counter too.
pub proof fn lemma_new_image_is_cleared(
    last: Option<u64>,
    board: Board,
    target: Color,
    bumped: u64,
)
    requires
        last != Some(board.counter),
        board.image matches Some(image) && image.has_whole_pixels(),
    ensures
        ({
            let (end, after) = poll_once(last, board, target, bumped);
            let image = board.image->0;
            &&& end == PollView::Done {
                result: Ok(ProcessResult::Processed),
                fingerprint: Some(after.counter),
            }
            &&& after.image == Some(
                ImageView {
                    pixels: cleared(image.pixels, target),
                    width: image.width,
                    height: image.height,
                },
            )
            &&& matches_in(image.pixels, target) == 0 ==> after == board
            &&& matches_in(image.pixels, target) > 0 ==> after.counter == bumped
        }),
{
    reveal_with_fuel(PollView::settle, 7);
    let image = board.image->0;
    if matches_in(image.pixels, target) == 0 {
        lemma_scan_without_match_changes_nothing(image.pixels, target);
    }
}

/// A poll that is handed a buffer that is not made of whole pixels ends at
/// once with an error that names the length. The buffer is neither cut nor
/// padded: nothing is written, and the fingerprint stays.
pub proof fn lemma_broken_buffer_is_refused(
    last: Option<u64>,
    board: Board,
    target: Color,
    bumped: u64,
)
    requires
        last != Some(board.counter),
        board.image matches Some(image) && !image.has_whole_pixels(),
    ensures
        poll_once(last, board, target, bumped) == (
            PollView::Done {
                result: Err(malformed_message(board.image->0.pixels.len())),
                fingerprint: last,
            },
            board,
        ),
{
    reveal_with_fuel(PollView::settle, 5);
}

/// The first poll of all reads the clipboard, wherever its counter stands,
/// at 0 too: it is never skipped. It ends as `NoImage` on an empty
/// clipboard, as `Processed` on an image of whole pixels, and with an error
/// on any other buffer; and if it ends well, the counter it leaves the
/// clipboard with is its fingerprint.
pub proof fn lemma_first_poll_reads_the_clipboard(board: Board, target: Color, bumped: u64)
    ensures
        ({
            let (end, after) = poll_once(None, board, target, bumped);
            &&& end is Done
            &&& !(end->result matches Ok(ProcessResult::Skipped))
            &&& board.image is None ==> end->result == Ok::<ProcessResult, Seq<char>>(
                ProcessResult::NoImage,
            )
            &&& (board.image is Some && board.image->0.has_whole_pixels()) ==> end->result
                == Ok::<ProcessResult, Seq<char>>(ProcessResult::Processed)
            &&& (board.image is Some && !board.image->0.has_whole_pixels()) ==> end->result
                == Err::<ProcessResult, Seq<char>>(
                malformed_message(board.image->0.pixels.len()),
            )
            &&& end->result is Ok ==> end->fingerprint == Some(after.counter)
        }),
{
    if board.image is None {
        lemma_empty_clipboard_is_noted(None, board, target, bumped);
    } else if board.image->0.has_whole_pixels() {
        lemma_new_image_is_cleared(None, board, target, bumped);
    } else {
        lemma_broken_buffer_is_refused(None, board, target, bumped);
    }
}

/// Two polls in a row, with nobody else touching the clipboard during or
/// between them: if the first ends well, the second is `Skipped`, and changes
/// neither the fingerprint nor the clipboard. The service never takes its own
/// write for new content.
///
/// This holds whatever target color the second poll would load: a color that
/// is configured after the first poll is not applied to what is on the
/// clipboard until the clipboard changes.
pub proof fn lemma_second_poll_is_skipped(
    last: Option<u64>,
    board: Board,
    target: Color,
    bumped: u64,
    next_target: Color,
    next_bumped: u64,
)
    requires
        poll_once(last, board, target, bumped).0 matches PollView::Done { result: Ok(_), .. },
    ensures
        ({
            let (first, between) = poll_once(last, board, target, bumped);
            poll_once(first->fingerprint, between, next_target, next_bumped) == (
                PollView::Done {
                    result: Ok(ProcessResult::Skipped),
                    fingerprint: first->fingerprint,
                },
                between,
            )
        }),
{
    let (first, between) = poll_once(last, board, target, bumped);
    if last == Some(board.counter) {
        lemma_unmoved_counter_is_skipped(last, board, target, bumped);
    } else if board.image is None {
        lemma_empty_clipboard_is_noted(last, board, target, bumped);
    } else if board.image->0.has_whole_pixels() {
        lemma_new_image_is_cleared(last, board, target, bumped);
    } else {
        lemma_broken_buffer_is_refused(last, board, target, bumped);
    }
    lemma_unmoved_counter_is_skipped(first->fingerprint, between, next_target, next_bumped);
}

/// Polls come to rest. Once a poll has ended well, any number of further
/// polls, with nobody else touching the clipboard, leave the fingerprint and
/// the clipboard where that first poll left them: nothing alternates, and
/// nothing grows.
pub proof fn lemma_polls_come_to_rest(
    last: Option<u64>,
    board: Board,
    target: Color,
    bumped: u64,
    polls: nat,
)
    requires
        polls >= 1,
        poll_once(last, board, target, bumped).0 matches PollView::Done { result: Ok(_), .. },
    ensures
        after_polls(last, board, target, bumped, polls) == after_polls(
            last,
            board,
            target,
            bumped,
            1,
        ),
    decreases polls,
{
    reveal_with_fuel(after_polls, 2);
    if polls >= 2 {
        lemma_polls_come_to_rest(last, board, target, bumped, (polls - 1) as nat);
        lemma_second_poll_is_skipped(last, board, target, bumped, target, bumped);
    }
}

} // verus!
