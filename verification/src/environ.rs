//! The launcher's process-wide state: the native window that Java handed
//! over, the main render window, the vsync setting, the JVM, and the window
//! size last read.

use vstd::prelude::*;
use crate::text::str_eq;

verus! {

/// The process-wide state of the bridge. Handles are plain integers.
#[derive(PartialEq, Eq, Structural, Clone, Copy, Debug)]
pub struct Environ {
    pub pojav_window: Option<u64>,
    pub main_window_bundle: Option<u64>,
    pub force_vsync: bool,
    pub runtime_java_vm_ptr: Option<u64>,
    pub saved_width: i32,
    pub saved_height: i32,
}

/// The state before anything was set.
pub open spec fn spec_initial_environ() -> Environ {
    Environ {
        pojav_window: None,
        main_window_bundle: None,
        force_vsync: false,
        runtime_java_vm_ptr: None,
        saved_width: 0,
        saved_height: 0,
    }
}

impl Default for Environ {
    fn default() -> (r: Self)
        ensures
            r == spec_initial_environ(),
    {
        Environ {
            pojav_window: None,
            main_window_bundle: None,
            force_vsync: false,
            runtime_java_vm_ptr: None,
            saved_width: 0,
            saved_height: 0,
        }
    }
}

/// The value of the vsync setting that forces a swap interval of one.
pub open spec fn spec_forces_vsync(setting: Seq<char>) -> bool {
    setting == "true"@
}

impl Environ {
    /// Records the native window that Java handed over.
    pub fn set_window(&mut self, window: u64)
        ensures
            *final(self) == (Environ { pojav_window: Some(window), ..*old(self) }),
    {
        self.pojav_window = Some(window);
    }

    /// Gives back the native window in use, to be released, and forgets it.
    pub fn take_window(&mut self) -> (r: u64)
        requires
            old(self).pojav_window is Some,
        ensures
            r == old(self).pojav_window->0,
            *final(self) == (Environ { pojav_window: None, ..*old(self) }),
    {
        let w = self.pojav_window.unwrap();
        self.pojav_window = None;
        w
    }

    /// Sets the vsync flag from the text of its setting: only `true` forces it.
    pub fn set_force_vsync(&mut self, setting: &str)
        ensures
            *final(self) == (Environ {
                force_vsync: spec_forces_vsync(setting@),
                ..*old(self)
            }),
    {
        proof {
            reveal_strlit("true");
        }
        self.force_vsync = str_eq(setting, "true");
    }

    /// Records the size of the native window.
    pub fn record_window_size(&mut self, width: i32, height: i32)
        ensures
            *final(self) == (Environ { saved_width: width, saved_height: height, ..*old(self) }),
    {
        self.saved_width = width;
        self.saved_height = height;
    }
}

/// A window handed over and then released is the one released, and leaves
/// no window behind; nothing else changes.
pub proof fn lemma_set_then_take_window(e: Environ, window: u64)
    ensures
        ({
            let set = Environ { pojav_window: Some(window), ..e };
            &&& set.pojav_window->0 == window
            &&& (Environ { pojav_window: None, ..set }) == (Environ { pojav_window: None, ..e })
        }),
{
}

} // verus!
