//! Shader files by path and by the time they were last modified.

use vstd::prelude::*;

verus! {

/// The time a file was last modified, as seconds and nanoseconds since the
/// Unix epoch.
#[derive(Clone, Copy, Debug, PartialEq, Eq, Structural)]
pub struct Modified {
    pub secs: u64,
    pub nanos: u32,
}

/// A shader file and the version of it that was last read.
#[derive(Debug)]
pub struct Shader {
    path: String,
    version: Modified,
}

impl Shader {
    /// The path of the shader's file.
    pub closed spec fn spec_path(&self) -> Seq<char> {
        self.path@
    }

    /// The modification time of the file when it was last looked at.
    pub closed spec fn spec_version(&self) -> Modified {
        self.version
    }

    /// The shader at `path`, whose file was last modified at `version`.
    pub fn new(path: &str, version: Modified) -> (shader: Shader)
        ensures
            shader.spec_path() == path@,
            shader.spec_version() == version,
    {
        Shader { version, path: path.to_owned() }
    }

    /// The same shader, looked at again now that its file was last modified
    /// at `version`.
    pub fn renew(&self, version: Modified) -> (shader: Shader)
        ensures
            shader.spec_path() == self.spec_path(),
            shader.spec_version() == version,
    {
        Shader::new(self.path.as_str(), version)
    }

    /// True when the file was modified since the shader was last looked at:
    /// `now` is the file's modification time as it is now.
    pub fn changed(&self, now: Modified) -> (changed: bool)
        ensures
            changed == (self.spec_version() != now),
    {
        self.version != now
    }

    /// The path of the shader's file.
    pub fn path(&self) -> (path: &String)
        ensures
            path@ == self.spec_path(),
    {
        &self.path
    }

    /// The modification time of the file when it was last looked at.
    pub fn version(&self) -> (version: Modified)
        ensures
            version == self.spec_version(),
    {
        self.version
    }
}

} // verus!
