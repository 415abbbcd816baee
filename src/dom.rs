use vstd::prelude::*;

use crate::event::{
    LogicalPosition, LogicalSize, ModifiersState, Pointer, PointerButton, PointerPhase,
    PointerType, Ratio,
};
use crate::history::{tilt_ratio, twist_turns, TILT_DIVISOR, DEGREES_PER_TURN};
use crate::event::WindowEvent;
use crate::sink::{tagged, EventSink};

verus! {

/// One browser pointer event (or one of its coalesced sub-events), with the
/// values that the normalizer reads.
///
/// Positions and sizes are already in logical (CSS) units; `pressure` and
/// `tangential_pressure` are already normalized; tilts and twist are degrees.
#[derive(Debug)]
pub struct DomPointerSample {
    pub pointer_id: u32,
    pub offset_x: Ratio,
    pub offset_y: Ratio,
    pub modifiers: ModifiersState,
    pub is_primary: bool,
    pub pointer_type: String,
    pub width: Ratio,
    pub height: Ratio,
    pub pressure: Ratio,
    pub tangential_pressure: Ratio,
    pub tilt_x: i32,
    pub tilt_y: i32,
    pub twist: i32,
}

/// The pointer type a browser tag names: exactly "pen", "mouse" or "touch".
pub open spec fn tag_type(tag: Seq<char>) -> Option<PointerType> {
    if tag == seq!['p', 'e', 'n'] {
        Some(PointerType::Pen)
    } else if tag == seq!['m', 'o', 'u', 's', 'e'] {
        Some(PointerType::Mouse)
    } else if tag == seq!['t', 'o', 'u', 'c', 'h'] {
        Some(PointerType::Touch)
    } else {
        None
    }
}

/// The canonical event for one browser sample; `None` where its type tag is
/// not one of the three known ones.
pub open spec fn dom_event(phase: PointerPhase, s: DomPointerSample) -> Option<Pointer> {
    match tag_type(s.pointer_type@) {
        Some(t) => Some(
            Pointer {
                id: s.pointer_id,
                position: LogicalPosition { x: s.offset_x, y: s.offset_y },
                modifiers: s.modifiers,
                phase,
                is_primary: s.is_primary,
                pointer_type: t,
                size: LogicalSize { width: s.width, height: s.height },
                pressure: s.pressure,
                tangential_pressure: s.tangential_pressure,
                tilt_x: tilt_ratio(s.tilt_x),
                tilt_y: tilt_ratio(s.tilt_y),
                twist: twist_turns(s.twist as int),
                button: PointerButton::NoButton,
            },
        ),
        None => None,
    }
}

/// Whether every sample carries a known type tag.
pub open spec fn all_tags_known(samples: Seq<DomPointerSample>) -> bool {
    forall|i: int| 0 <= i < samples.len() ==> (#[trigger] tag_type(samples[i].pointer_type@)) is Some
}

/// The events of one notification, one per sample and in the same order.
pub open spec fn notification_events(
    phase: PointerPhase,
    samples: Seq<DomPointerSample>,
) -> Seq<Pointer> {
    samples.map_values(|s: DomPointerSample| dom_event(phase, s).unwrap())
}

fn chars_equal(s: &str, lit: &str) -> (r: bool)
    ensures
        r == (s@ == lit@),
{
    let n = s.unicode_len();
    if n != lit.unicode_len() {
        return false;
    }
    let mut i: usize = 0;
    while i < n
        invariant
            n == s@.len(),
            n == lit@.len(),
            i <= n,
            forall|j: int| 0 <= j < i ==> s@[j] == lit@[j],
        decreases n - i,
    {
        if s.get_char(i) != lit.get_char(i) {
            return false;
        }
        i = i + 1;
    }
    assert(s@ =~= lit@);
    true
}

/// Maps a browser pointer-type tag to a pointer type.
pub fn pointer_type_from_tag(tag: &str) -> (r: Option<PointerType>)
    ensures
        r == tag_type(tag@),
{
    proof {
        reveal_strlit("pen");
        reveal_strlit("mouse");
        reveal_strlit("touch");
        assert("pen"@ =~= seq!['p', 'e', 'n']);
        assert("mouse"@ =~= seq!['m', 'o', 'u', 's', 'e']);
        assert("touch"@ =~= seq!['t', 'o', 'u', 'c', 'h']);
    }
    if chars_equal(tag, "pen") {
        Some(PointerType::Pen)
    } else if chars_equal(tag, "mouse") {
        Some(PointerType::Mouse)
    } else if chars_equal(tag, "touch") {
        Some(PointerType::Touch)
    } else {
        None
    }
}

/// Normalizes one browser sample; `None` where its type tag is unknown,
/// which callers treat as a broken platform contract.
pub fn translate_pointer_event(phase: PointerPhase, event: &DomPointerSample) -> (r: Option<Pointer>)
    ensures
        r == dom_event(phase, *event),
{
    let pointer_type = match pointer_type_from_tag(event.pointer_type.as_str()) {
        Some(t) => t,
        None => return None,
    };
    Some(
        Pointer {
            id: event.pointer_id,
            position: LogicalPosition { x: event.offset_x, y: event.offset_y },
            modifiers: event.modifiers,
            phase,
            is_primary: event.is_primary,
            pointer_type,
            size: LogicalSize { width: event.width, height: event.height },
            pressure: event.pressure,
            tangential_pressure: event.tangential_pressure,
            tilt_x: Ratio::new(event.tilt_x as i64, TILT_DIVISOR),
            tilt_y: Ratio::new(event.tilt_y as i64, TILT_DIVISOR),
            twist: Ratio::new(event.twist as i64, DEGREES_PER_TURN),
            button: PointerButton::NoButton,
        },
    )
}

/// Normalizes the samples of one notification, in order; `None` where any
/// of them has an unknown type tag.
pub fn translate_coalesced(phase: PointerPhase, samples: &Vec<DomPointerSample>) -> (r: Option<
    Vec<Pointer>,
>)
    ensures
        r is Some <==> all_tags_known(samples@),
        r matches Some(v) ==> v@ == notification_events(phase, samples@),
{
    let mut out: Vec<Pointer> = Vec::new();
    let mut i: usize = 0;
    while i < samples.len()
        invariant
            i <= samples@.len(),
            all_tags_known(samples@.take(i as int)),
            out@ == notification_events(phase, samples@.take(i as int)),
        decreases samples@.len() - i,
    {
        match translate_pointer_event(phase, &samples[i]) {
            Some(e) => {
                out.push(e);
            },
            None => {
                assert(tag_type(samples@[i as int].pointer_type@) is None);
                return None;
            },
        }
        i = i + 1;
        assert(samples@.take(i as int) =~= samples@.take(i - 1).push(samples@[i - 1]));
        assert(notification_events(phase, samples@.take(i as int)) =~= notification_events(
            phase,
            samples@.take(i - 1),
        ).push(dom_event(phase, samples@[i - 1]).unwrap()));
    }
    assert(samples@.take(i as int) =~= samples@);
    Some(out)
}

/// Delivers one browser notification to a window's sink: every sample is
/// normalized and appended in order, tagged with `window_id`. Where a sample
/// has an unknown type tag nothing is appended and `false` is returned.
pub fn deliver_notification(
    sink: &mut EventSink,
    window_id: u64,
    phase: PointerPhase,
    samples: &Vec<DomPointerSample>,
) -> (r: bool)
    ensures
        r == all_tags_known(samples@),
        r ==> final(sink)@ == old(sink)@ + tagged(window_id, notification_events(phase, samples@)),
        !r ==> final(sink)@ == old(sink)@,
{
    match translate_coalesced(phase, samples) {
        Some(events) => {
            sink.append_pointers(window_id, &events);
            true
        },
        None => false,
    }
}

/// A tag other than "pen", "mouse" or "touch" yields no event: no pointer
/// type is guessed for it.
pub proof fn unknown_tag_yields_no_event(phase: PointerPhase, s: DomPointerSample)
    requires
        s.pointer_type@ != seq!['p', 'e', 'n'],
        s.pointer_type@ != seq!['m', 'o', 'u', 's', 'e'],
        s.pointer_type@ != seq!['t', 'o', 'u', 'c', 'h'],
    ensures
        dom_event(phase, s) is None,
        !all_tags_known(seq![s]),
{
    assert(seq![s][0] == s);
}

/// A move notification with `N` coalesced samples appends exactly `N`
/// events to a sink, after what it held, in the samples' order, each one
/// the sample's own event and each in the move phase.
pub proof fn coalesced_moves_append_in_order(
    window_id: u64,
    samples: Seq<DomPointerSample>,
    queue: Seq<WindowEvent>,
)
    requires
        all_tags_known(samples),
    ensures
        ({
            let after = queue + tagged(window_id, notification_events(PointerPhase::Move, samples));
            &&& after.len() == queue.len() + samples.len()
            &&& after.take(queue.len() as int) == queue
            &&& forall|i: int|
                0 <= i < samples.len() ==> {
                    &&& #[trigger] after[queue.len() + i] == WindowEvent {
                        window_id,
                        event: dom_event(PointerPhase::Move, samples[i]).unwrap(),
                    }
                    &&& after[queue.len() + i].event.phase == PointerPhase::Move
                    &&& after[queue.len() + i].event.id == samples[i].pointer_id
                }
        }),
{
    let after = queue + tagged(window_id, notification_events(PointerPhase::Move, samples));
    assert(after.take(queue.len() as int) =~= queue);
    assert forall|i: int| 0 <= i < samples.len() implies #[trigger] after[queue.len() + i]
        == (WindowEvent {
        window_id,
        event: dom_event(PointerPhase::Move, samples[i]).unwrap(),
    }) by {
        assert(tag_type(samples[i].pointer_type@) is Some);
    }
}

/// A down notification, `N` move samples and an up notification of one
/// pointer, delivered to an empty sink, leave `N + 2` events that all carry
/// that pointer's id, in the order down, `N` moves, up; draining returns
/// them in that order.
pub proof fn contact_lifetime_in_order(
    window_id: u64,
    down: DomPointerSample,
    moves: Seq<DomPointerSample>,
    up: DomPointerSample,
)
    requires
        all_tags_known(seq![down]),
        all_tags_known(moves),
        all_tags_known(seq![up]),
        up.pointer_id == down.pointer_id,
        forall|i: int| 0 <= i < moves.len() ==> #[trigger] moves[i].pointer_id == down.pointer_id,
    ensures
        ({
            let q = Seq::<WindowEvent>::empty() + tagged(
                window_id,
                notification_events(PointerPhase::Down, seq![down]),
            ) + tagged(window_id, notification_events(PointerPhase::Move, moves)) + tagged(
                window_id,
                notification_events(PointerPhase::Up, seq![up]),
            );
            &&& q.len() == moves.len() + 2
            &&& forall|i: int| 0 <= i < q.len() ==> #[trigger] q[i].event.id == down.pointer_id
            &&& q[0].event.phase == PointerPhase::Down
            &&& forall|i: int| 1 <= i <= moves.len() ==> #[trigger] q[i].event.phase == PointerPhase::Move
            &&& q[moves.len() as int + 1].event.phase == PointerPhase::Up
        }),
{
    let n = moves.len();
    let q = Seq::<WindowEvent>::empty() + tagged(
        window_id,
        notification_events(PointerPhase::Down, seq![down]),
    ) + tagged(window_id, notification_events(PointerPhase::Move, moves)) + tagged(
        window_id,
        notification_events(PointerPhase::Up, seq![up]),
    );
    assert(tag_type(seq![down][0].pointer_type@) is Some);
    assert(tag_type(seq![up][0].pointer_type@) is Some);
    assert(seq![down][0] == down);
    assert(seq![up][0] == up);
    assert forall|i: int| 0 <= i < q.len() implies #[trigger] q[i].event.id == down.pointer_id by {
        if 1 <= i <= n {
            assert(tag_type(moves[i - 1].pointer_type@) is Some);
            assert(moves[i - 1].pointer_id == down.pointer_id);
        }
    }
    assert forall|i: int| 1 <= i <= n implies #[trigger] q[i].event.phase == PointerPhase::Move by {
        assert(tag_type(moves[i - 1].pointer_type@) is Some);
    }
}

} // verus!
