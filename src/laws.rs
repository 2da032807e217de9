use vstd::prelude::*;

use crate::window::{WindowCommand, WindowModel, WindowRequest};

verus! {

/// Application-side requests queue their commands in call order, one per call,
/// each with the payload of its call, after the commands already queued. So a
/// drain after a run of requests on a drained window returns exactly those
/// commands.
pub proof fn lemma_requests_queue_in_order(m: WindowModel, rs: Seq<WindowRequest>)
    ensures
        m.after_requests(rs).commands == m.commands + rs.map_values(
            |r: WindowRequest| m.command_for(r),
        ),
        m.drained().after_requests(rs).commands == rs.map_values(
            |r: WindowRequest| m.command_for(r),
        ),
    decreases rs.len(),
{
    lemma_requests_keep_backend_state(m, rs);
    if rs.len() > 0 {
        let prev = rs.drop_last();
        lemma_requests_queue_in_order(m, prev);
        lemma_requests_keep_backend_state(m, prev);
        assert(rs.map_values(|r: WindowRequest| m.command_for(r)) =~= prev.map_values(
            |r: WindowRequest| m.command_for(r),
        ).push(m.command_for(rs.last())));
        assert(m.after_requests(rs).commands =~= m.commands + rs.map_values(
            |r: WindowRequest| m.command_for(r),
        ));
        lemma_requests_keep_backend_state(m.drained(), prev);
        lemma_requests_queue_in_order(m.drained(), prev);
        assert(m.drained().after_requests(prev).commands =~= m.drained().commands
            + prev.map_values(|r: WindowRequest| m.drained().command_for(r)));
        assert(prev.map_values(|r: WindowRequest| m.drained().command_for(r)) =~= prev.map_values(
            |r: WindowRequest| m.command_for(r),
        ));
        assert(m.drained().after_requests(rs).commands =~= rs.map_values(
            |r: WindowRequest| m.command_for(r),
        ));
    } else {
        assert(m.commands + rs.map_values(|r: WindowRequest| m.command_for(r)) =~= m.commands);
        assert(rs.map_values(|r: WindowRequest| m.command_for(r)) =~= Seq::<
            WindowCommand,
        >::empty());
    }
}

/// Application-side requests never change what only the backend reports: the
/// physical size, the scale factor, and the cursor position. In particular a
/// cursor move that the application asks for leaves the stored position as it
/// was until the backend reports one.
pub proof fn lemma_requests_keep_backend_state(m: WindowModel, rs: Seq<WindowRequest>)
    ensures
        m.after_requests(rs).physical_width == m.physical_width,
        m.after_requests(rs).physical_height == m.physical_height,
        m.after_requests(rs).scale_factor == m.scale_factor,
        m.after_requests(rs).cursor_position == m.cursor_position,
        m.after_requests(rs).id == m.id,
    decreases rs.len(),
{
    if rs.len() > 0 {
        lemma_requests_keep_backend_state(m, rs.drop_last());
    }
}

/// Draining leaves the queue empty, so a second drain with no request in
/// between returns nothing, and changes nothing else.
pub proof fn lemma_second_drain_empty(m: WindowModel)
    ensures
        m.drained().commands.len() == 0,
        m.drained().drained() == m.drained(),
{
    assert(m.drained().drained().commands =~= m.drained().commands);
}

} // verus!
