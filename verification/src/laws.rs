//! What holds of the navigation state machine over whole sequences of events.
//!
//! The laws are stated over the model of the state and proved from the
//! transition functions of the model. `App::handle_input` takes the state
//! from a model to the model's next state, so what is proved here of the
//! model holds of what the executable code does.

use crate::app::{AppMode, AppView};
use crate::events::{Event, KeyCode, Keystroke};
use crate::numeral::{
    all_hex_digits,
    hex_padded,
    hex_value,
    is_hex_numeral,
    lemma_hex_padded_digits,
    lemma_hex_round_trip,
};
use crate::sedecim_file_info::MoveValues;
use vstd::prelude::*;

verus! {

/// The state after a sequence of events, handled one after the other.
pub open spec fn run(start: AppView, events: Seq<Event<Keystroke>>) -> AppView
    decreases events.len(),
{
    if events.len() == 0 {
        start
    } else {
        run(start, events.drop_last()).step(events.last())
    }
}

/// Whether the event, handled in state `s`, scrolls the window by a whole
/// page of 256 bytes: PageDown in Standard mode where the scroll is not
/// suppressed, PageUp in Standard mode from an offset of at least one page.
pub open spec fn shifts_by_page(s: AppView, event: Event<Keystroke>) -> bool {
    &&& s.mode is Standard
    &&& event matches Event::Input(key)
    &&& match key.code {
        KeyCode::PageDown => s.window.scroll_target(MoveValues::DownPage) is Some,
        KeyCode::PageUp => s.window.offset >= 256,
        _ => false,
    }
}

/// Whether no event of the sequence, handled in the state that the events
/// before it lead to, scrolls the window by a whole page.
pub open spec fn free_of_page_shifts(start: AppView, events: Seq<Event<Keystroke>>) -> bool
    decreases events.len(),
{
    events.len() == 0 || (free_of_page_shifts(start, events.drop_last()) && !shifts_by_page(
        run(start, events.drop_last()),
        events.last(),
    ))
}

/// The keystrokes that type `digits`, one plain character key each.
pub open spec fn typed(digits: Seq<char>) -> Seq<Event<Keystroke>> {
    Seq::new(
        digits.len(),
        |i: int| Event::<Keystroke>::Input(Keystroke::character(digits[i])),
    )
}

/// The keystrokes of a jump: Ctrl-g, the digits, Enter.
pub open spec fn jump_keys(digits: Seq<char>) -> Seq<Event<Keystroke>> {
    seq![Event::<Keystroke>::Input(Keystroke::control('g'))] + typed(digits)
        + seq![Event::<Keystroke>::Input(Keystroke::plain(KeyCode::Enter))]
}

/// The state right after a file was named is valid, with the cursor on
/// screen and the view offset on the line grid and within the file.
pub proof fn lemma_opened_is_valid(name: Seq<char>)
    ensures
        AppView::opened(name).wf(),
        AppView::opened(name).cursor_in_range(),
        AppView::opened(name).window.in_bounds(),
        AppView::opened(name).window.aligned(),
{
}

/// Handling two sequences of events one after the other is handling their
/// concatenation.
pub proof fn lemma_run_concat(
    start: AppView,
    first: Seq<Event<Keystroke>>,
    second: Seq<Event<Keystroke>>,
)
    ensures
        run(start, first + second) == run(run(start, first), second),
    decreases second.len(),
{
    if second.len() > 0 {
        lemma_run_concat(start, first, second.drop_last());
        assert((first + second).drop_last() =~= first + second.drop_last());
    }
}

/// One event leaves a valid state valid.
pub proof fn lemma_step_keeps_wf(s: AppView, event: Event<Keystroke>)
    requires
        s.wf(),
    ensures
        s.step(event).wf(),
{
}

/// The cursor stays on screen: whatever the event, the selected line stays
/// within 0 to 19 and the selected column within 0 to 9.
pub proof fn lemma_step_keeps_cursor_in_range(s: AppView, event: Event<Keystroke>)
    requires
        s.cursor_in_range(),
    ensures
        s.step(event).cursor_in_range(),
{
}

/// The view offset stays within the file: whatever the event, an offset
/// between 0 and the file size stays so.
pub proof fn lemma_step_keeps_window_in_bounds(s: AppView, event: Event<Keystroke>)
    requires
        s.window.in_bounds(),
    ensures
        s.step(event).window.in_bounds(),
        s.step(event).window.size == s.window.size,
{
}

/// The view offset stays on the line grid: an offset within the file that is
/// a multiple of 10 stays one under every event but a scroll by a whole page.
pub proof fn lemma_step_keeps_window_aligned(s: AppView, event: Event<Keystroke>)
    requires
        s.window.in_bounds(),
        s.window.aligned(),
        !shifts_by_page(s, event),
    ensures
        s.step(event).window.aligned(),
{
}

/// A scroll by a whole page takes an offset on the line grid off it: a page
/// is 256 bytes, which is no multiple of 10.
pub proof fn lemma_page_shift_leaves_grid(s: AppView, event: Event<Keystroke>)
    requires
        s.window.in_bounds(),
        s.window.aligned(),
        shifts_by_page(s, event),
    ensures
        !s.step(event).window.aligned(),
{
}

/// Any sequence of events leaves a valid state valid.
pub proof fn lemma_run_keeps_wf(start: AppView, events: Seq<Event<Keystroke>>)
    requires
        start.wf(),
    ensures
        run(start, events).wf(),
    decreases events.len(),
{
    if events.len() > 0 {
        lemma_run_keeps_wf(start, events.drop_last());
        lemma_step_keeps_wf(run(start, events.drop_last()), events.last());
    }
}

/// After any sequence of events the selected line is within 0 to 19 and the
/// selected column within 0 to 9.
pub proof fn lemma_run_keeps_cursor_in_range(start: AppView, events: Seq<Event<Keystroke>>)
    requires
        start.cursor_in_range(),
    ensures
        run(start, events).cursor_in_range(),
    decreases events.len(),
{
    if events.len() > 0 {
        lemma_run_keeps_cursor_in_range(start, events.drop_last());
        lemma_step_keeps_cursor_in_range(run(start, events.drop_last()), events.last());
    }
}

/// After any sequence of events the view offset lies between 0 and the file
/// size, if it did so at the start.
pub proof fn lemma_run_keeps_window_in_bounds(start: AppView, events: Seq<Event<Keystroke>>)
    requires
        start.window.in_bounds(),
    ensures
        run(start, events).window.in_bounds(),
        run(start, events).window.size == start.window.size,
    decreases events.len(),
{
    if events.len() > 0 {
        lemma_run_keeps_window_in_bounds(start, events.drop_last());
        lemma_step_keeps_window_in_bounds(run(start, events.drop_last()), events.last());
    }
}

/// After any sequence of events of which none scrolls by a whole page, the
/// view offset is a multiple of 10 within the file, if it was so at the start.
pub proof fn lemma_run_keeps_window_aligned(start: AppView, events: Seq<Event<Keystroke>>)
    requires
        start.window.in_bounds(),
        start.window.aligned(),
        free_of_page_shifts(start, events),
    ensures
        run(start, events).window.in_bounds(),
        run(start, events).window.aligned(),
    decreases events.len(),
{
    if events.len() > 0 {
        lemma_run_keeps_window_aligned(start, events.drop_last());
        lemma_step_keeps_window_aligned(run(start, events.drop_last()), events.last());
        lemma_step_keeps_window_in_bounds(run(start, events.drop_last()), events.last());
    }
}

/// Typing hexadecimal digits in Jump mode appends them to the prompt and
/// changes nothing else.
pub proof fn lemma_typing_fills_prompt(start: AppView, digits: Seq<char>)
    requires
        start.mode is Jump,
        all_hex_digits(digits),
    ensures
        run(start, typed(digits)) == (AppView {
            jump_value: start.jump_value + digits,
            ..start
        }),
    decreases digits.len(),
{
    if digits.len() > 0 {
        lemma_typing_fills_prompt(start, digits.drop_last());
        assert(typed(digits).drop_last() =~= typed(digits.drop_last()));
    }
}

/// A jump lands on the address typed: from Standard mode, Ctrl-g, the digits
/// of a hexadecimal numeral that is at most the file size, and Enter lead to
/// Standard mode with the cursor on that address, on the first line of the
/// window.
pub proof fn lemma_jump_round_trip(start: AppView, digits: Seq<char>)
    requires
        start.mode is Standard,
        is_hex_numeral(digits),
        hex_value(digits) <= start.window.size,
    ensures
        ({
            let end = run(start, jump_keys(digits));
            let address = hex_value(digits) as int;
            &&& end.cursor_offset() == address
            &&& end.mode is Standard
            &&& end.selected_line == 0
            &&& end.selected_value == address % 10
            &&& end.window.offset == address - address % 10
        }),
{
    let open = seq![Event::<Keystroke>::Input(Keystroke::control('g'))];
    let prompted = AppView { mode: AppMode::Jump, jump_value: Seq::empty(), ..start };
    assert(run(start, open) == prompted) by {
        assert(run(start, open.drop_last()) == start);
    }
    lemma_typing_fills_prompt(prompted, digits);
    lemma_run_concat(start, open, typed(digits));
    assert(jump_keys(digits).drop_last() =~= open + typed(digits));
}

/// Round trip: from Standard mode, Ctrl-g, the lowercase hexadecimal numeral
/// of any offset up to the file size, and Enter put the cursor on that offset.
pub proof fn lemma_jump_to_offset(start: AppView, offset: nat, width: nat)
    requires
        start.mode is Standard,
        offset <= start.window.size,
    ensures
        run(start, jump_keys(hex_padded(offset, width))).cursor_offset() == offset,
        run(start, jump_keys(hex_padded(offset, width))).mode is Standard,
{
    lemma_hex_padded_digits(offset, width);
    lemma_hex_round_trip(offset, width);
    lemma_jump_round_trip(start, hex_padded(offset, width));
}

} // verus!
