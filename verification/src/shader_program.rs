use vstd::prelude::*;

verus! {

/// Where a shader program stands with respect to its source files.
#[derive(PartialEq, Eq, Clone, Copy, Debug, Structural)]
pub enum WatchState {
    /// Made from source strings: there are no files to watch.
    Unwatched,
    /// Made from files, and the compiled program is that of the last
    /// successful compile.
    Watching,
    /// A source file was written; a compile is due.
    ReloadPending,
    /// The last compile failed; the program of the compile before is kept.
    Broken,
}

/// What the filesystem watcher reported about one of the source files.
#[derive(PartialEq, Eq, Clone, Copy, Debug, Structural)]
pub enum WatchEvent {
    /// The file was written.
    Write,
    /// Anything else.
    Other,
}

/// Whether any of `events` reports a write.
pub open spec fn any_write(events: Seq<WatchEvent>) -> bool {
    exists|i: int| 0 <= i < events.len() && events[i] == WatchEvent::Write
}

/// A compiled GPU program by the backend's handle, with the paths of the
/// files it was made from and the state of its reload cycle.
pub struct ShaderProgram {
    program: u32,
    state: WatchState,
    vs_file_path: String,
    fs_file_path: String,
}

/// Everything a [`ShaderProgram`] holds, as plain values.
pub struct ShaderView {
    pub program: u32,
    pub state: WatchState,
    pub vs_file_path: Seq<char>,
    pub fs_file_path: Seq<char>,
}

impl View for ShaderProgram {
    type V = ShaderView;

    closed spec fn view(&self) -> ShaderView {
        ShaderView {
            program: self.program,
            state: self.state,
            vs_file_path: self.vs_file_path@,
            fs_file_path: self.fs_file_path@,
        }
    }
}

impl ShaderProgram {
    /// A program compiled from source strings. It is never reloaded.
    pub fn from_string(program: u32) -> (shader: ShaderProgram)
        ensures
            shader@ == (ShaderView {
                program,
                state: WatchState::Unwatched,
                vs_file_path: "null"@,
                fs_file_path: "null"@,
            }),
    {
        ShaderProgram {
            program,
            state: WatchState::Unwatched,
            vs_file_path: "null".to_owned(),
            fs_file_path: "null".to_owned(),
        }
    }

    /// A program compiled from the two files, which are watched from now
    /// on.
    pub fn from_source(program: u32, vs_file: String, fs_file: String) -> (shader: ShaderProgram)
        ensures
            shader@ == (ShaderView {
                program,
                state: WatchState::Watching,
                vs_file_path: vs_file@,
                fs_file_path: fs_file@,
            }),
    {
        ShaderProgram {
            program,
            state: WatchState::Watching,
            vs_file_path: vs_file,
            fs_file_path: fs_file,
        }
    }

    /// Takes in what the watcher reported since the last access. Returns
    /// whether a compile is due: if and only if the program is watched and
    /// a write was reported, or a compile was already due. The program and
    /// the paths stay as they are.
    pub fn check_reload(&mut self, events: &Vec<WatchEvent>) -> (reload: bool)
        ensures
            reload == (old(self)@.state == WatchState::ReloadPending || (old(self)@.state
                != WatchState::Unwatched && any_write(events@))),
            final(self)@ == (ShaderView {
                state: if reload {
                    WatchState::ReloadPending
                } else {
                    old(self)@.state
                },
                ..old(self)@
            }),
    {
        let mut written = false;
        let mut i: usize = 0;
        while i < events.len()
            invariant
                i <= events@.len(),
                written == any_write(events@.take(i as int)),
            decreases events@.len() - i,
        {
            proof {
                let seen = events@.take(i + 1);
                if any_write(seen) {
                    let k = choose|k: int| 0 <= k < seen.len() && seen[k] == WatchEvent::Write;
                    if k < i {
                        assert(events@.take(i as int)[k] == WatchEvent::Write);
                    }
                }
                if any_write(events@.take(i as int)) {
                    let k = choose|k: int|
                        0 <= k < i && events@.take(i as int)[k] == WatchEvent::Write;
                    assert(seen[k] == WatchEvent::Write);
                }
                if events@[i as int] == WatchEvent::Write {
                    assert(seen[i as int] == WatchEvent::Write);
                }
            }
            if events[i] == WatchEvent::Write {
                written = true;
            }
            i += 1;
        }
        proof {
            assert(events@.take(i as int) == events@);
        }
        match self.state {
            WatchState::Unwatched => false,
            WatchState::ReloadPending => true,
            WatchState::Watching | WatchState::Broken => {
                if written {
                    self.state = WatchState::ReloadPending;
                }
                written
            },
        }
    }

    /// Ends a due compile. On success (`compiled` holds the new program)
    /// the program is replaced and watching goes on; on failure the
    /// program of before is kept and the shader is `Broken` until the next
    /// write. Returns whether the program was replaced. Where no compile is
    /// due, nothing changes.
    pub fn reload(&mut self, compiled: Option<u32>) -> (replaced: bool)
        ensures
            replaced == (old(self)@.state == WatchState::ReloadPending && compiled is Some),
            final(self)@ == (if old(self)@.state != WatchState::ReloadPending {
                old(self)@
            } else {
                match compiled {
                    Some(program) => ShaderView {
                        program,
                        state: WatchState::Watching,
                        ..old(self)@
                    },
                    None => ShaderView { state: WatchState::Broken, ..old(self)@ },
                }
            }),
    {
        match self.state {
            WatchState::ReloadPending => match compiled {
                Some(program) => {
                    self.program = program;
                    self.state = WatchState::Watching;
                    true
                },
                None => {
                    self.state = WatchState::Broken;
                    false
                },
            },
            _ => false,
        }
    }

    /// The backend's handle of the compiled program.
    pub fn program(&self) -> (program: u32)
        ensures
            program == self@.program,
    {
        self.program
    }

    /// The state of the reload cycle.
    pub fn state(&self) -> (state: WatchState)
        ensures
            state == self@.state,
    {
        self.state
    }

    /// The path of the vertex shader's file.
    pub fn vs_file_path(&self) -> (path: &String)
        ensures
            path@ == self@.vs_file_path,
    {
        &self.vs_file_path
    }

    /// The path of the fragment shader's file.
    pub fn fs_file_path(&self) -> (path: &String)
        ensures
            path@ == self@.fs_file_path,
    {
        &self.fs_file_path
    }
}

} // verus!
