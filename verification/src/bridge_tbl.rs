//! The renderer bridge table: one entry per renderer operation, each filled
//! once with the backend that serves it.

use vstd::prelude::*;

verus! {

/// The backends that can serve a bridge operation.
#[derive(PartialEq, Eq, Structural, Clone, Copy, Debug)]
pub enum BridgeBackend {
    /// The EGL/OpenGL ES backend.
    Gl,
}

/// The bridge table. An entry, once filled, is never replaced.
#[derive(PartialEq, Eq, Structural, Clone, Copy, Debug)]
pub struct BridgeTable {
    pub init: Option<BridgeBackend>,
    pub init_context: Option<BridgeBackend>,
    pub make_current: Option<BridgeBackend>,
    pub get_current: Option<BridgeBackend>,
    pub swap_buffers: Option<BridgeBackend>,
    pub setup_window: Option<BridgeBackend>,
    pub swap_interval: Option<BridgeBackend>,
}

/// Filling an entry that may already be filled: the first value stays.
pub open spec fn fill_once(entry: Option<BridgeBackend>, backend: BridgeBackend) -> Option<BridgeBackend> {
    match entry {
        Some(b) => Some(b),
        None => Some(backend),
    }
}

/// The table once the GL backend has been offered for every entry.
pub open spec fn spec_with_gl(t: BridgeTable) -> BridgeTable {
    BridgeTable {
        init: fill_once(t.init, BridgeBackend::Gl),
        init_context: fill_once(t.init_context, BridgeBackend::Gl),
        make_current: fill_once(t.make_current, BridgeBackend::Gl),
        get_current: fill_once(t.get_current, BridgeBackend::Gl),
        swap_buffers: fill_once(t.swap_buffers, BridgeBackend::Gl),
        setup_window: fill_once(t.setup_window, BridgeBackend::Gl),
        swap_interval: fill_once(t.swap_interval, BridgeBackend::Gl),
    }
}

/// Every entry of the table is filled.
pub open spec fn spec_complete(t: BridgeTable) -> bool {
    &&& t.init is Some
    &&& t.init_context is Some
    &&& t.make_current is Some
    &&& t.get_current is Some
    &&& t.swap_buffers is Some
    &&& t.setup_window is Some
    &&& t.swap_interval is Some
}

fn set_once(entry: &mut Option<BridgeBackend>, backend: BridgeBackend)
    ensures
        *final(entry) == fill_once(*old(entry), backend),
{
    if entry.is_none() {
        *entry = Some(backend);
    }
}

impl BridgeTable {
    /// The table with no entry filled.
    pub fn new() -> (r: Self)
        ensures
            r == (BridgeTable {
                init: None,
                init_context: None,
                make_current: None,
                get_current: None,
                swap_buffers: None,
                setup_window: None,
                swap_interval: None,
            }),
    {
        BridgeTable {
            init: None,
            init_context: None,
            make_current: None,
            get_current: None,
            swap_buffers: None,
            setup_window: None,
            swap_interval: None,
        }
    }

}

/// Offers the GL backend for every operation; entries already filled keep
/// their backend.
pub fn set_gl_bridge_tbl(table: &mut BridgeTable)
    ensures
        *final(table) == spec_with_gl(*old(table)),
        spec_complete(*final(table)),
{
    set_once(&mut table.init, BridgeBackend::Gl);
    set_once(&mut table.init_context, BridgeBackend::Gl);
    set_once(&mut table.make_current, BridgeBackend::Gl);
    set_once(&mut table.get_current, BridgeBackend::Gl);
    set_once(&mut table.swap_buffers, BridgeBackend::Gl);
    set_once(&mut table.setup_window, BridgeBackend::Gl);
    set_once(&mut table.swap_interval, BridgeBackend::Gl);
}

/// The backend that initializes the renderer.
pub fn br_init(table: &BridgeTable) -> (r: BridgeBackend)
    requires
        table.init is Some,
    ensures
        r == table.init->0,
{
    table.init.unwrap()
}

/// The backend that creates rendering contexts.
pub fn br_init_context(table: &BridgeTable) -> (r: BridgeBackend)
    requires
        table.init_context is Some,
    ensures
        r == table.init_context->0,
{
    table.init_context.unwrap()
}

/// The backend that makes a window current.
pub fn br_make_current(table: &BridgeTable) -> (r: BridgeBackend)
    requires
        table.make_current is Some,
    ensures
        r == table.make_current->0,
{
    table.make_current.unwrap()
}

/// The backend that tells the current window.
pub fn br_get_current(table: &BridgeTable) -> (r: BridgeBackend)
    requires
        table.get_current is Some,
    ensures
        r == table.get_current->0,
{
    table.get_current.unwrap()
}

/// The backend that presents frames.
pub fn br_swap_buffers(table: &BridgeTable) -> (r: BridgeBackend)
    requires
        table.swap_buffers is Some,
    ensures
        r == table.swap_buffers->0,
{
    table.swap_buffers.unwrap()
}

/// The backend that moves the main window to a new native window.
pub fn br_setup_window(table: &BridgeTable) -> (r: BridgeBackend)
    requires
        table.setup_window is Some,
    ensures
        r == table.setup_window->0,
{
    table.setup_window.unwrap()
}

/// The backend that sets the swap interval.
pub fn br_swap_interval(table: &BridgeTable) -> (r: BridgeBackend)
    requires
        table.swap_interval is Some,
    ensures
        r == table.swap_interval->0,
{
    table.swap_interval.unwrap()
}

/// Filling the table a second time changes nothing.
pub proof fn lemma_set_gl_bridge_tbl_idempotent(t: BridgeTable)
    ensures
        spec_with_gl(spec_with_gl(t)) == spec_with_gl(t),
        spec_complete(spec_with_gl(t)),
{
}

/// Once filled, the table serves every operation with the backend of the
/// first fill; from an empty table, that is the GL backend.
pub proof fn lemma_fresh_table_is_gl(t: BridgeTable)
    requires
        t == (BridgeTable {
            init: None,
            init_context: None,
            make_current: None,
            get_current: None,
            swap_buffers: None,
            setup_window: None,
            swap_interval: None,
        }),
    ensures
        spec_with_gl(t).init == Some(BridgeBackend::Gl),
        spec_with_gl(t).init_context == Some(BridgeBackend::Gl),
        spec_with_gl(t).make_current == Some(BridgeBackend::Gl),
        spec_with_gl(t).get_current == Some(BridgeBackend::Gl),
        spec_with_gl(t).swap_buffers == Some(BridgeBackend::Gl),
        spec_with_gl(t).setup_window == Some(BridgeBackend::Gl),
        spec_with_gl(t).swap_interval == Some(BridgeBackend::Gl),
{
}

} // verus!
