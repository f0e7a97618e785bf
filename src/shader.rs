use vstd::prelude::*;

verus! {

/// A linked shader program, known by the handle that the graphics driver gave it.
pub struct ShaderProgram {
    handle: u32,
}

impl ShaderProgram {
    /// The driver's handle of the program.
    pub closed spec fn spec_handle(&self) -> u32 {
        self.handle
    }

    /// Wraps the handle of a program that has been linked successfully.
    pub fn from_handle(handle: u32) -> (r: ShaderProgram)
        ensures
            r.spec_handle() == handle,
    {
        ShaderProgram { handle }
    }

    /// The handle to bind the program by, or to look its uniforms up in.
    pub fn handle(&self) -> (r: u32)
        ensures
            r == self.spec_handle(),
    {
        self.handle
    }
}

/// The two programmable stages that a program is built from.
#[derive(Clone, Copy, Debug, PartialEq, Eq, Structural)]
pub enum ShaderStage {
    Vertex,
    Fragment,
}

/// Why a shader program could not be built.
#[derive(Clone, Copy, Debug, PartialEq, Eq, Structural)]
pub enum BuildError {
    /// The driver did not compile the source of this stage.
    Compile(ShaderStage),
    /// The driver did not link the compiled stages into a program.
    Link,
}

/// The status flag that the driver reports for a compile or a link is false exactly when it is zero.
pub open spec fn status_failed(status: i32) -> bool {
    status == 0
}

/// Reads the compile status that the driver reported for one stage.
pub fn check_compile_status(stage: ShaderStage, status: i32) -> (r: Result<(), BuildError>)
    ensures
        r == (if status_failed(status) {
            Err::<(), BuildError>(BuildError::Compile(stage))
        } else {
            Ok::<(), BuildError>(())
        }),
{
    if status == 0 {
        Err(BuildError::Compile(stage))
    } else {
        Ok(())
    }
}

/// Reads the link status that the driver reported for a program.
pub fn check_link_status(status: i32) -> (r: Result<(), BuildError>)
    ensures
        r == (if status_failed(status) {
            Err::<(), BuildError>(BuildError::Link)
        } else {
            Ok::<(), BuildError>(())
        }),
{
    if status == 0 {
        Err(BuildError::Link)
    } else {
        Ok(())
    }
}

impl BuildError {
    /// The first line of the diagnostic printed for this error.
    pub open spec fn spec_heading(self) -> Seq<char> {
        match self {
            BuildError::Compile(ShaderStage::Vertex) => "Vertex shader compilation error"@,
            BuildError::Compile(ShaderStage::Fragment) => "Fragment shader compilation error"@,
            BuildError::Link => "Shader program linking error"@,
        }
    }

    /// The first line of the diagnostic printed for this error.
    pub fn heading(&self) -> (r: String)
        ensures
            r@ == self.spec_heading(),
    {
        match self {
            BuildError::Compile(ShaderStage::Vertex) => String::from_str(
                "Vertex shader compilation error",
            ),
            BuildError::Compile(ShaderStage::Fragment) => String::from_str(
                "Fragment shader compilation error",
            ),
            BuildError::Link => String::from_str("Shader program linking error"),
        }
    }
}

/// The length of the text that the driver wrote into an info-log buffer: the bytes before
/// the first zero byte, or the whole buffer when it holds none.
pub fn info_log_len(log: &[u8]) -> (n: usize)
    ensures
        n <= log@.len(),
        forall|j: int| 0 <= j < n ==> log@[j] != 0,
        n < log@.len() ==> log@[n as int] == 0,
{
    let mut i: usize = 0;
    while i < log.len()
        invariant
            i <= log@.len(),
            forall|j: int| 0 <= j < i ==> log@[j] != 0,
        decreases log@.len() - i,
    {
        if log[i] == 0 {
            return i;
        }
        i = i + 1;
    }
    i
}

/// The text with a terminating zero character appended, as the driver's C interface takes
/// shader sources and uniform names.
pub fn c_string(text: &str) -> (r: String)
    ensures
        r@ == text@.push('\0'),
{
    let mut r = text.to_owned();
    r.append("\0");
    proof {
        reveal_strlit("\0");
        assert(r@ =~= text@.push('\0'));
    }
    r
}

} // verus!
