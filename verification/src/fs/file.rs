//! Files: the open-flag algebra of `OpenOptions`, and the checks on what
//! the host's open, read, write, rename and sync calls return.

use vstd::prelude::*;
use vstd::string::StrSliceExecFns;

use crate::base::RTTError;

verus! {

/// The descriptor value the host returns for a failed open.
pub const FD_FAILED: i32 = -1;

/// Open flag: read only.
pub const READ_ONLY: i32 = 0;

/// Open flag: write only.
pub const WRITE_ONLY: i32 = 1;

/// Open flag: read and write.
pub const READ_WRITE: i32 = 2;

/// Open flag: create the file when it is missing.
pub const CREATE: i32 = 0x0200;

/// Open flag: append to the file's end.
pub const APPEND: i32 = 0x0008;

/// Open flag: drop the file's old contents.
pub const TRUNCATION: i32 = 0x0400;

/// An open file: its descriptor, the flags it was opened with, and its
/// path.
pub struct File {
    pub fd: i32,
    pub flag: i32,
    pub path: String,
}

impl File {
    /// Interprets what the host's open call returned for `name`: the
    /// failure descriptor is an open error, anything else is the open
    /// file.
    pub fn raw_open(name: &str, flag: i32, fd: i32) -> (r: Result<File, RTTError>)
        ensures
            fd == FD_FAILED ==> r is Err && r->Err_0 == RTTError::FileOpenFailed,
            fd != FD_FAILED ==> match r {
                Ok(f) => f.fd == fd && f.flag == flag && f.path@ == name@,
                Err(_) => false,
            },
    {
        if fd == FD_FAILED {
            return Err(RTTError::FileOpenFailed);
        }
        Ok(File { fd, flag, path: name.to_owned() })
    }

    /// An open for reading alone: the flag is fixed to read-only.
    pub fn open(path: &str, fd: i32) -> (r: Result<File, RTTError>)
        ensures
            fd == FD_FAILED ==> r is Err && r->Err_0 == RTTError::FileOpenFailed,
            fd != FD_FAILED ==> match r {
                Ok(f) => f.fd == fd && f.flag == READ_ONLY && f.path@ == path@,
                Err(_) => false,
            },
    {
        Self::raw_open(path, READ_ONLY, fd)
    }

    /// An open that creates the file when it is missing, reading alone.
    pub fn create(path: &str, fd: i32) -> (r: Result<File, RTTError>)
        ensures
            fd == FD_FAILED ==> r is Err && r->Err_0 == RTTError::FileOpenFailed,
            fd != FD_FAILED ==> match r {
                Ok(f) => f.fd == fd && f.flag == (READ_ONLY | CREATE) && f.path@ == path@,
                Err(_) => false,
            },
    {
        Self::raw_open(path, READ_ONLY | CREATE, fd)
    }

    /// A fresh set of open options, everything off.
    pub fn with_options() -> (o: OpenOptions)
        ensures
            o == (OpenOptions {
                write: false,
                read: false,
                append: false,
                truncate: false,
                create: false,
                create_new: false,
            }),
    {
        OpenOptions::new()
    }

    /// Interprets what the host's write call returned: the write succeeded
    /// exactly when every byte of the buffer went out.
    pub fn write(&self, buf: &Vec<u8>, written: i32) -> (r: Result<(), RTTError>)
        requires
            buf@.len() <= i32::MAX,
        ensures
            r == (if written == buf@.len() {
                Ok::<(), RTTError>(())
            } else {
                Err::<(), RTTError>(RTTError::FileWriteFailed)
            }),
    {
        if written == buf.len() as i32 {
            Ok(())
        } else {
            Err(RTTError::FileWriteFailed)
        }
    }

    /// Interprets what the host's read call returned: `buf` is the buffer
    /// of `len` bytes the host filled, `got` how many bytes it reported.
    /// Nothing read, or more than asked for, is a read error; otherwise the
    /// buffer is cut down to what was actually read.
    pub fn read(&self, len: usize, buf: Vec<u8>, got: i32) -> (r: Result<Vec<u8>, RTTError>)
        requires
            buf@.len() == len,
            len <= i32::MAX,
        ensures
            (got <= 0 || got > len) ==> r is Err && r->Err_0 == RTTError::FileReadFailed,
            (0 < got <= len) ==> match r {
                Ok(v) => v@ == buf@.take(got as int),
                Err(_) => false,
            },
    {
        if got <= 0 || got > len as i32 {
            return Err(RTTError::FileReadFailed);
        }
        let mut out = buf;
        out.truncate(got as usize);
        Ok(out)
    }

    /// Interprets what the host's unlink call returned.
    pub fn delete(code: i32) -> (r: Result<(), RTTError>)
        ensures
            r == (if code == 0 {
                Ok::<(), RTTError>(())
            } else {
                Err::<(), RTTError>(RTTError::FileNotExist)
            }),
    {
        if code != 0 {
            return Err(RTTError::FileNotExist);
        }
        Ok(())
    }

    /// Interprets what the host's rename call returned.
    pub fn rename(code: i32) -> (r: Result<(), RTTError>)
        ensures
            r == (if code == 0 {
                Ok::<(), RTTError>(())
            } else {
                Err::<(), RTTError>(RTTError::FileReNameFailed)
            }),
    {
        if code != 0 {
            return Err(RTTError::FileReNameFailed);
        }
        Ok(())
    }

    /// Interprets what the host's sync call returned.
    pub fn sync(&self, code: i32) -> (r: Result<(), RTTError>)
        ensures
            r == (if code == 0 {
                Ok::<(), RTTError>(())
            } else {
                Err::<(), RTTError>(RTTError::FileWriteFailed)
            }),
    {
        if code != 0 {
            return Err(RTTError::FileWriteFailed);
        }
        Ok(())
    }
}

/// Which of the host's open flags a set of options asks for, or the error
/// when the options name no direction at all.
pub open spec fn spec_flags(o: OpenOptions) -> Result<i32, RTTError> {
    if o.read && !o.write {
        Ok(spec_extra_flags(o, READ_ONLY))
    } else if o.write && !o.read {
        Ok(spec_extra_flags(o, WRITE_ONLY))
    } else if o.read && o.write {
        Ok(spec_extra_flags(o, READ_WRITE))
    } else {
        Err(RTTError::FileOpenFailed)
    }
}

/// The creation, truncation and append bits on top of a direction flag.
pub open spec fn spec_extra_flags(o: OpenOptions, base: i32) -> i32 {
    (if o.create_new || o.create {
        base | CREATE
    } else {
        base
    }) | (if o.truncate {
        TRUNCATION
    } else {
        0
    }) | (if o.append {
        APPEND
    } else {
        0
    })
}

/// Options an open is made with, combined one setter at a time.
#[derive(PartialEq, Eq, Structural)]
pub struct OpenOptions {
    pub write: bool,
    pub read: bool,
    pub append: bool,
    pub truncate: bool,
    pub create: bool,
    pub create_new: bool,
}

impl Default for OpenOptions {
    /// Everything off.
    fn default() -> (o: Self)
        ensures
            o == (OpenOptions {
                write: false,
                read: false,
                append: false,
                truncate: false,
                create: false,
                create_new: false,
            }),
    {
        OpenOptions {
            write: false,
            read: false,
            append: false,
            truncate: false,
            create: false,
            create_new: false,
        }
    }
}

impl OpenOptions {
    /// A fresh set of options, everything off.
    pub fn new() -> (o: OpenOptions)
        ensures
            o == (OpenOptions {
                write: false,
                read: false,
                append: false,
                truncate: false,
                create: false,
                create_new: false,
            }),
    {
        Default::default()
    }

    /// Sets whether the file is opened for writing.
    pub fn write(&mut self, f: bool) -> (r: &mut OpenOptions)
        ensures
            *r == (OpenOptions { write: f, ..*old(self) }),
            *final(self) == *final(r),
    {
        self.write = f;
        self
    }

    /// Sets whether the file is opened for reading.
    pub fn read(&mut self, f: bool) -> (r: &mut OpenOptions)
        ensures
            *r == (OpenOptions { read: f, ..*old(self) }),
            *final(self) == *final(r),
    {
        self.read = f;
        self
    }

    /// Sets whether writes go to the file's end.
    pub fn append(&mut self, f: bool) -> (r: &mut OpenOptions)
        ensures
            *r == (OpenOptions { append: f, ..*old(self) }),
            *final(self) == *final(r),
    {
        self.append = f;
        self
    }

    /// Sets whether the file's old contents are dropped.
    pub fn truncate(&mut self, f: bool) -> (r: &mut OpenOptions)
        ensures
            *r == (OpenOptions { truncate: f, ..*old(self) }),
            *final(self) == *final(r),
    {
        self.truncate = f;
        self
    }

    /// Sets whether a missing file is created.
    pub fn create(&mut self, f: bool) -> (r: &mut OpenOptions)
        ensures
            *r == (OpenOptions { create: f, ..*old(self) }),
            *final(self) == *final(r),
    {
        self.create = f;
        self
    }

    /// Sets whether the file must not exist yet.
    pub fn create_new(&mut self, f: bool) -> (r: &mut OpenOptions)
        ensures
            *r == (OpenOptions { create_new: f, ..*old(self) }),
            *final(self) == *final(r),
    {
        self.create_new = f;
        self
    }

    /// The options' must-not-exist check, fed with whether a probing open
    /// of the path succeeded: a file that is already there is an error
    /// exactly when `create_new` is on.
    pub fn create_new_check(&self, exists: bool) -> (r: Result<(), RTTError>)
        ensures
            r == (if self.create_new && exists {
                Err::<(), RTTError>(RTTError::FileExist)
            } else {
                Ok::<(), RTTError>(())
            }),
    {
        if self.create_new && exists {
            return Err(RTTError::FileExist);
        }
        Ok(())
    }

    /// The host flag word these options ask for: a direction — read, write
    /// or both, and neither is an open error — with the creation,
    /// truncation and append bits on top.
    pub fn flags(&self) -> (r: Result<i32, RTTError>)
        ensures
            r == spec_flags(*self),
    {
        let mut flag: i32;
        if self.read && !self.write {
            flag = READ_ONLY;
        } else if self.write && !self.read {
            flag = WRITE_ONLY;
        } else if self.read && self.write {
            flag = READ_WRITE;
        } else {
            return Err(RTTError::FileOpenFailed);
        }

        if self.create_new || self.create {
            flag = flag | CREATE;
        }
        flag = flag | (if self.truncate {
            TRUNCATION
        } else {
            0
        });
        flag = flag | (if self.append {
            APPEND
        } else {
            0
        });
        Ok(flag)
    }

    /// The whole decision side of an option-driven open: the must-not-exist
    /// check on the probe's outcome, the flag word, and the verdict on the
    /// descriptor the host then returned for that flag word.
    pub fn open(self, path: &str, exists: bool, fd: i32) -> (r: Result<File, RTTError>)
        ensures
            self.create_new && exists ==> r is Err && r->Err_0 == RTTError::FileExist,
            !(self.create_new && exists) && spec_flags(self) is Err ==> r is Err && r->Err_0
                == RTTError::FileOpenFailed,
            !(self.create_new && exists) && spec_flags(self) is Ok && fd == FD_FAILED ==> r is Err
                && r->Err_0 == RTTError::FileOpenFailed,
            !(self.create_new && exists) && spec_flags(self) is Ok && fd != FD_FAILED ==> match r {
                Ok(f) => f.fd == fd && f.flag == spec_flags(self)->Ok_0 && f.path@ == path@,
                Err(_) => false,
            },
    {
        self.create_new_check(exists)?;
        let flag = self.flags()?;
        File::raw_open(path, flag, fd)
    }
}

} // verus!
