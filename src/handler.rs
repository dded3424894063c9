use vstd::prelude::*;

verus! {

/// Handlers for the mouse button events that a consumer reacts to.
///
/// This library does not call these methods itself; event dispatch belongs to
/// the code that owns the page's event listeners.
pub trait MouseButtonEventHandler {
    /// Handles a `mousedown` event.
    fn handle_mousedown(&self);

    /// Handles a `mouseup` event.
    fn handle_mouseup(&self);

    /// Handles a `click` event.
    fn handle_click(&self);

    /// Handles a `dblclick` event.
    fn handle_dblclick(&self);
}

} // verus!
