//! The window resolver: the table that maps opaque window handles to native
//! window references, and the lookup the service performs on it.

use vstd::prelude::*;

verus! {

/// An opaque, process-scoped identifier for an application window. It has no
/// meaning outside the window resolver.
#[derive(Clone, Copy, PartialEq, Eq, Structural, Debug)]
pub struct WindowHandle(pub i64);

/// A reference to a concrete native window, as the platform adapter receives
/// it (an HWND-like value, held but never interpreted here).
#[derive(Clone, Copy, PartialEq, Eq, Structural, Debug)]
pub struct NativeWindow(pub i64);

/// The native window registered for `h`, taking the first entry with that
/// handle, or `None` when the window no longer exists or was never
/// registered.
pub open spec fn spec_resolve(
    entries: Seq<(WindowHandle, NativeWindow)>,
    h: WindowHandle,
) -> Option<NativeWindow>
    decreases entries.len(),
{
    if entries.len() == 0 {
        None
    } else if entries[0].0 == h {
        Some(entries[0].1)
    } else {
        spec_resolve(entries.skip(1), h)
    }
}

/// The window resolver's table of currently registered windows.
pub struct WindowResolver {
    pub entries: Vec<(WindowHandle, NativeWindow)>,
}

impl WindowResolver {
    /// What `h` resolves to under this table.
    pub open spec fn resolve(&self, h: WindowHandle) -> Option<NativeWindow> {
        spec_resolve(self.entries@, h)
    }

    /// An empty table: no handle resolves.
    pub fn new() -> (r: WindowResolver)
        ensures
            r.entries@.len() == 0,
    {
        WindowResolver { entries: Vec::new() }
    }

    /// Registers `h` as resolving to `w`, unless `h` is already present.
    pub fn register(&mut self, h: WindowHandle, w: NativeWindow)
        ensures
            final(self).entries@ == old(self).entries@.push((h, w)),
    {
        self.entries.push((h, w));
    }

    /// Looks `h` up in the table.
    pub fn lookup(&self, h: WindowHandle) -> (r: Option<NativeWindow>)
        ensures
            r == self.resolve(h),
    {
        let n = self.entries.len();
        let mut i: usize = 0;
        proof {
            assert(self.entries@.skip(0) =~= self.entries@);
        }
        while i < n
            invariant
                n == self.entries@.len(),
                i <= n,
                spec_resolve(self.entries@, h) == spec_resolve(self.entries@.skip(i as int), h),
            decreases n - i,
        {
            proof {
                assert(self.entries@.skip(i as int)[0] == self.entries@[i as int]);
                assert(self.entries@.skip(i as int).skip(1) =~= self.entries@.skip(i as int + 1));
            }
            let entry = self.entries[i];
            if entry.0 == h {
                return Some(entry.1);
            }
            i = i + 1;
        }
        proof {
            assert(self.entries@.skip(n as int) =~= Seq::<(WindowHandle, NativeWindow)>::empty());
        }
        None
    }
}

} // verus!
