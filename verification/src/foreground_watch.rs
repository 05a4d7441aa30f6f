//! The watcher of the foreground window: the life of its hook, the event it
//! makes of a change of foreground, and the listeners it hands the event to.

use crate::error::{VividError, VividResult, WindowsHookError};
use vstd::prelude::*;

verus! {

/// What the system knows of a running process.
#[derive(Debug, Clone, PartialEq, Eq)]
pub struct ProcessInfo {
    /// The name the system reports for the process; it may be empty.
    pub name: String,
    /// The path of the process's executable.
    pub exe: String,
}

/// A change of the foreground window.
#[derive(Debug, Clone, PartialEq, Eq)]
pub struct ForegroundWatcherEvent {
    /// The handle of the window that came to the foreground.
    pub hwnd: isize,
    /// The id of the process that owns the window.
    pub process_id: usize,
    /// The image name of that process.
    pub process_exe: String,
    /// The path of its executable.
    pub process_path: String,
}

/// An event as mathematical values.
pub struct ForegroundWatcherEventView {
    pub hwnd: isize,
    pub process_id: usize,
    pub process_exe: Seq<char>,
    pub process_path: Seq<char>,
}

impl View for ForegroundWatcherEvent {
    type V = ForegroundWatcherEventView;

    open spec fn view(&self) -> ForegroundWatcherEventView {
        ForegroundWatcherEventView {
            hwnd: self.hwnd,
            process_id: self.process_id,
            process_exe: self.process_exe@,
            process_path: self.process_path@,
        }
    }
}

/// Whether `c` separates the parts of a path.
pub open spec fn is_separator(c: char) -> bool {
    c == '\\' || c == '/'
}

/// Where the file name of `path` starts: right behind its last separator, or
/// at the start if it has none.
pub open spec fn file_name_start(path: Seq<char>) -> int
    decreases path.len(),
{
    if path.len() == 0 {
        0
    } else if is_separator(path.last()) {
        path.len() as int
    } else {
        file_name_start(path.drop_last())
    }
}

/// The file name of `path`: what follows its last separator. It is empty
/// where the path is empty or ends in a separator.
pub open spec fn file_name(path: Seq<char>) -> Seq<char> {
    path.skip(file_name_start(path))
}

/// The image name of a process: the name the system reports or, where that
/// is empty, the file name of its executable.
pub open spec fn resolved_exe(name: Seq<char>, exe: Seq<char>) -> Seq<char> {
    if name.len() > 0 {
        name
    } else {
        file_name(exe)
    }
}

/// The file name is the longest end of the path that holds no separator.
pub proof fn lemma_file_name(path: Seq<char>)
    ensures
        0 <= file_name_start(path) <= path.len(),
        file_name(path).len() == path.len() - file_name_start(path),
        forall|i: int| 0 <= i < file_name(path).len() ==> !is_separator(#[trigger] file_name(path)[i]),
        file_name_start(path) > 0 ==> is_separator(path[file_name_start(path) - 1]),
    decreases path.len(),
{
    if path.len() > 0 && !is_separator(path.last()) {
        let shorter = path.drop_last();
        lemma_file_name(shorter);
        let start = file_name_start(path);
        assert forall|i: int| 0 <= i < file_name(path).len() implies !is_separator(
            #[trigger] file_name(path)[i],
        ) by {
            if start + i < shorter.len() {
                assert(file_name(shorter)[i] == shorter[start + i]);
            }
        }
    }
}

/// The file name of `path`, where both `\` and `/` separate its parts.
pub fn path_file_name(path: &str) -> (name: &str)
    ensures
        name@ == file_name(path@),
{
    let len = path.unicode_len();
    let mut start: usize = 0;
    let mut i: usize = 0;
    for c in it: path.chars()
        invariant
            it.seq() == path@,
            i == it.index(),
            len == path@.len(),
            start == file_name_start(path@.take(i as int)),
            start <= i,
    {
        proof {
            let longer = path@.take(i + 1);
            assert(longer.drop_last() == path@.take(i as int));
            assert(longer.last() == c);
        }
        i = i + 1;
        if c == '\\' || c == '/' {
            start = i;
        }
    }
    assert(path@.take(len as int) == path@);
    assert(path@.subrange(start as int, len as int) == path@.skip(start as int));
    path.substring_char(start, len)
}

/// The image name of a process that reports the name `name` and runs the
/// executable at `exe`.
pub fn resolve_process_exe(name: &str, exe: &str) -> (process_exe: String)
    ensures
        process_exe@ == resolved_exe(name@, exe@),
{
    if name.is_empty() {
        path_file_name(exe).to_owned()
    } else {
        name.to_owned()
    }
}

/// What `register` answers for a watcher that holds `hook`.
pub open spec fn register_outcome(hook: Option<isize>) -> VividResult<()> {
    if hook is Some {
        Err(VividError::WindowsHookError(WindowsHookError::HookAlreadyRegistered))
    } else {
        Ok(())
    }
}

/// The hook that a watcher with `hook` holds after the system answered a
/// request to install one with `handle` and `os_error`, and what
/// `hook_installed` returns.
pub open spec fn installed_outcome(hook: Option<isize>, handle: isize, os_error: i32) -> (
    Option<isize>,
    VividResult<()>,
) {
    if handle == 0 {
        (hook, Err(VividError::WindowsHookError(WindowsHookError::SetWinEventHook(os_error))))
    } else if hook is Some {
        (hook, Err(VividError::WindowsHookError(WindowsHookError::HookAlreadyRegistered)))
    } else {
        (Some(handle), Ok(()))
    }
}

/// What `unregister` answers for a watcher that holds `hook`: the handle of
/// the hook that is to be removed.
pub open spec fn unregister_outcome(hook: Option<isize>) -> VividResult<isize> {
    match hook {
        Some(handle) => Ok(handle),
        None => Err(VividError::WindowsHookError(WindowsHookError::NoHookToUnRegister)),
    }
}

/// The hook that a watcher with `hook` holds after the system answered a
/// request to remove it, and what `hook_removed` returns. A hook that the
/// system failed to remove is still held, so that its removal can be tried
/// again.
pub open spec fn removed_outcome(hook: Option<isize>, removed: bool, os_error: i32) -> (
    Option<isize>,
    VividResult<()>,
) {
    if removed {
        (None, Ok(()))
    } else {
        (hook, Err(VividError::WindowsHookError(WindowsHookError::UnhookWinEvent(os_error))))
    }
}

/// What `teardown` returns for a watcher that holds `hook`, and the listeners
/// it has afterwards: while a hook is held that hook is to be removed first,
/// and the listeners stay; after that the listeners are forgotten.
pub open spec fn teardown_outcome<F>(hook: Option<isize>, listeners: Seq<F>) -> (
    Option<isize>,
    Seq<F>,
) {
    match hook {
        Some(handle) => (Some(handle), listeners),
        None => (None, Seq::empty()),
    }
}

/// A watcher that holds no hook has none to remove.
pub proof fn lemma_unregister_without_hook()
    ensures
        unregister_outcome(None) == Err::<isize, VividError>(
            VividError::WindowsHookError(WindowsHookError::NoHookToUnRegister),
        ),
{
}

/// Once a hook is held, `register` is refused, and whatever the system answers
/// to another request, the hook that is held stays the one it was.
pub proof fn lemma_hook_never_replaced(first: isize, second: isize, os_error: i32)
    requires
        first != 0,
    ensures
        installed_outcome(None, first, os_error) == (Some(first), Ok::<(), VividError>(())),
        register_outcome(Some(first)) is Err,
        installed_outcome(Some(first), second, os_error).0 == Some(first),
        installed_outcome(Some(first), second, os_error).1 is Err,
{
}

/// A hook leaves the watcher only when the system has removed it: until
/// then `unregister` and `teardown` keep naming it, and once it is removed
/// `teardown` forgets the listeners and has nothing left to ask for.
pub proof fn lemma_teardown_releases_hook<F>(handle: isize, listeners: Seq<F>, os_error: i32)
    ensures
        unregister_outcome(removed_outcome(Some(handle), false, os_error).0) == Ok::<
            isize,
            VividError,
        >(handle),
        teardown_outcome(removed_outcome(Some(handle), false, os_error).0, listeners).0 == Some(
            handle,
        ),
        teardown_outcome(removed_outcome(Some(handle), true, os_error).0, listeners) == (
            None::<isize>,
            Seq::<F>::empty(),
        ),
{
}

/// The watcher of the foreground window. It holds the handle of the hook
/// while one is installed, and the listeners in the order they were added.
///
/// The watcher does not call the operating system. `register`, `unregister`
/// and `teardown` say what has to be asked of it, and `hook_installed` and
/// `hook_removed` take its answer.
pub struct ForegroundWatcher<F: Fn(&ForegroundWatcherEvent) -> VividResult<()>> {
    hook: Option<isize>,
    callbacks: Vec<F>,
}

impl<F: Fn(&ForegroundWatcherEvent) -> VividResult<()>> ForegroundWatcher<F> {
    #[verifier::type_invariant]
    spec fn well_formed(self) -> bool {
        &&& self.hook matches Some(handle) ==> handle != 0
        &&& forall|i: int, event: ForegroundWatcherEvent|
            0 <= i < self.callbacks@.len() ==> call_requires(self.callbacks@[i], (&event,))
    }

    /// The handle of the hook that is installed, if one is.
    pub closed spec fn hook(&self) -> Option<isize> {
        self.hook
    }

    /// Whether a hook is installed.
    pub open spec fn registered(&self) -> bool {
        self.hook() is Some
    }

    /// The listeners, in the order they were added.
    pub closed spec fn listeners(&self) -> Seq<F> {
        self.callbacks@
    }

    /// A watcher without a hook and without listeners.
    pub fn new() -> (watcher: Self)
        ensures
            watcher.hook() is None,
            watcher.listeners() == Seq::<F>::empty(),
    {
        Self { hook: None, callbacks: Vec::new() }
    }

    /// Adds `cb` behind the listeners that are there.
    pub fn add_event_callback(&mut self, cb: F)
        requires
            forall|event: ForegroundWatcherEvent| call_requires(cb, (&event,)),
        ensures
            final(self).listeners() == old(self).listeners().push(cb),
            final(self).hook() == old(self).hook(),
    {
        proof {
            use_type_invariant(&*self);
        }
        let mut callbacks: Vec<F> = Vec::new();
        std::mem::swap(&mut callbacks, &mut self.callbacks);
        callbacks.push(cb);
        self.callbacks = callbacks;
    }

    pub fn is_registered(&self) -> (registered: bool)
        ensures
            registered == self.registered(),
    {
        self.hook.is_some()
    }

    /// Whether a hook may be installed now: `Ok` tells the caller to ask the
    /// operating system for one and to report its answer to `hook_installed`.
    /// While a hook is held the request is refused, and nothing may be asked
    /// of the system.
    pub fn register(&self) -> (go_ahead: VividResult<()>)
        ensures
            go_ahead == register_outcome(self.hook()),
    {
        if self.hook.is_some() {
            Err(VividError::WindowsHookError(WindowsHookError::HookAlreadyRegistered))
        } else {
            Ok(())
        }
    }

    /// Takes the system's answer to a request to install the hook: the handle
    /// it returned, which is 0 where it refused, and its error code.
    pub fn hook_installed(&mut self, handle: isize, os_error: i32) -> (result: VividResult<()>)
        ensures
            final(self).hook() == installed_outcome(old(self).hook(), handle, os_error).0,
            result == installed_outcome(old(self).hook(), handle, os_error).1,
            final(self).listeners() == old(self).listeners(),
    {
        proof {
            use_type_invariant(&*self);
        }
        if handle == 0 {
            Err(VividError::WindowsHookError(WindowsHookError::SetWinEventHook(os_error)))
        } else if self.hook.is_some() {
            Err(VividError::WindowsHookError(WindowsHookError::HookAlreadyRegistered))
        } else {
            self.hook = Some(handle);
            Ok(())
        }
    }

    /// The hook that is to be removed: `Ok` holds its handle, for the caller
    /// to ask the operating system to remove it and to report the answer to
    /// `hook_removed`. Without a hook there is nothing to remove, and this is
    /// an error.
    pub fn unregister(&self) -> (handle: VividResult<isize>)
        ensures
            handle == unregister_outcome(self.hook()),
            handle matches Ok(installed) ==> installed != 0,
    {
        proof {
            use_type_invariant(self);
        }
        match self.hook {
            Some(handle) => Ok(handle),
            None => Err(VividError::WindowsHookError(WindowsHookError::NoHookToUnRegister)),
        }
    }

    /// Takes the system's answer to a request to remove the hook: whether it
    /// removed it, and its error code.
    pub fn hook_removed(&mut self, removed: bool, os_error: i32) -> (result: VividResult<()>)
        ensures
            final(self).hook() == removed_outcome(old(self).hook(), removed, os_error).0,
            result == removed_outcome(old(self).hook(), removed, os_error).1,
            final(self).listeners() == old(self).listeners(),
    {
        proof {
            use_type_invariant(&*self);
        }
        if removed {
            self.hook = None;
            Ok(())
        } else {
            Err(VividError::WindowsHookError(WindowsHookError::UnhookWinEvent(os_error)))
        }
    }

    /// One step of ending the watcher's work. While a hook is held, its
    /// handle is returned: the caller asks the operating system to remove it,
    /// reports the answer to `hook_removed` and calls `teardown` again. Once
    /// none is held, the listeners are forgotten and `None` is returned.
    pub fn teardown(&mut self) -> (handle: Option<isize>)
        ensures
            handle == teardown_outcome(old(self).hook(), old(self).listeners()).0,
            final(self).listeners() == teardown_outcome(old(self).hook(), old(self).listeners()).1,
            final(self).hook() == old(self).hook(),
            handle matches Some(installed) ==> installed != 0,
    {
        proof {
            use_type_invariant(&*self);
        }
        match self.hook {
            Some(handle) => Some(handle),
            None => {
                self.callbacks = Vec::new();
                None
            },
        }
    }

    /// Hands `event` to every listener, in the order they were added, and
    /// returns what each of them returned. A listener that fails does not keep
    /// the later ones from being called.
    pub fn dispatch(&self, event: &ForegroundWatcherEvent) -> (results: Vec<VividResult<()>>)
        ensures
            results@.len() == self.listeners().len(),
            forall|i: int|
                0 <= i < results@.len() ==> call_ensures(
                    self.listeners()[i],
                    (event,),
                    #[trigger] results@[i],
                ),
    {
        proof {
            use_type_invariant(self);
        }
        let mut results: Vec<VividResult<()>> = Vec::new();
        let mut i: usize = 0;
        while i < self.callbacks.len()
            invariant
                i <= self.callbacks@.len(),
                results@.len() == i,
                forall|j: int, e: ForegroundWatcherEvent|
                    0 <= j < self.callbacks@.len() ==> call_requires(self.callbacks@[j], (&e,)),
                forall|j: int|
                    0 <= j < i ==> call_ensures(self.callbacks@[j], (event,), #[trigger] results@[j]),
            decreases self.callbacks@.len() - i,
        {
            let result = (self.callbacks[i])(event);
            results.push(result);
            i = i + 1;
        }
        results
    }

    /// Reacts to a change of the foreground window: `hwnd` is the window,
    /// `process_id` the process that owns it, and `process` what the system
    /// knows of that process, if it can be inspected at all.
    ///
    /// Where it can, the event is made and handed to every listener; the
    /// event and what each listener returned come back. Where it cannot,
    /// no listener is called.
    pub fn event_proc(&self, hwnd: isize, process_id: usize, process: Option<ProcessInfo>) -> (outcome:
        VividResult<(ForegroundWatcherEvent, Vec<VividResult<()>>)>)
        ensures
            process is None ==> outcome == Err::<
                (ForegroundWatcherEvent, Vec<VividResult<()>>),
                VividError,
            >(VividError::ProcessNotAvailable(process_id)),
            process matches Some(info) ==> {
                &&& outcome matches Ok((event, results))
                &&& event@ == (ForegroundWatcherEventView {
                    hwnd,
                    process_id,
                    process_exe: resolved_exe(info.name@, info.exe@),
                    process_path: info.exe@,
                })
                &&& results@.len() == self.listeners().len()
                &&& forall|i: int|
                    0 <= i < results@.len() ==> call_ensures(
                        self.listeners()[i],
                        (&event,),
                        #[trigger] results@[i],
                    )
            },
    {
        match process {
            Some(info) => {
                let process_exe = resolve_process_exe(info.name.as_str(), info.exe.as_str());
                let event = ForegroundWatcherEvent {
                    hwnd,
                    process_id,
                    process_exe,
                    process_path: info.exe,
                };
                let results = self.dispatch(&event);
                Ok((event, results))
            },
            None => Err(VividError::ProcessNotAvailable(process_id)),
        }
    }
}

} // verus!
