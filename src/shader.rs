//! Shader programs: a cheaply cloned, shared handle to one compiled GPU program.

use std::rc::Rc;

use vstd::prelude::*;
use vstd::std_specs::cmp::PartialEqSpec;

use crate::error::{Result, TetraError};

verus! {

/// Relies on `Rc::clone`: the clone is another pointer to the same allocation,
/// so it refers to the same program.
#[verifier::external_body]
fn share(handle: &Rc<GLProgram>) -> (r: Rc<GLProgram>)
    ensures
        r == *handle,
{
    Rc::clone(handle)
}

/// Relies on `Rc::strong_count`: the number of handles sharing the allocation.
#[verifier::external_body]
fn strong_count(handle: &Rc<GLProgram>) -> usize {
    Rc::strong_count(handle)
}

/// A compiled and linked GPU program, known by the name the driver gave it.
#[derive(Debug, PartialEq, Eq, Structural)]
pub struct GLProgram {
    /// The driver's name for the program.
    pub id: u32,
}

impl View for GLProgram {
    type V = u32;

    open spec fn view(&self) -> u32 {
        self.id
    }
}

impl GLProgram {
    /// Wraps the driver's name for a program that it has compiled and linked.
    pub fn new(id: u32) -> (r: GLProgram)
        ensures
            r@ == id,
    {
        GLProgram { id }
    }

    /// The driver's name for this program.
    pub fn id(&self) -> (r: u32)
        ensures
            r == self@,
    {
        self.id
    }
}

/// The capability of a rendering context that reaches the GPU driver.
pub trait GraphicsDevice {
    /// Compiles and links a program from vertex and fragment source, or
    /// returns the compiler's or linker's diagnostic.
    fn compile_program(
        &mut self,
        vertex_shader: &str,
        fragment_shader: &str,
    ) -> std::result::Result<GLProgram, String>;
}

/// The rendering context: the single gateway to the driver.
pub struct Context<D> {
    gl: D,
    requests: Ghost<Seq<(Seq<char>, Seq<char>)>>,
}

impl<D: GraphicsDevice> Context<D> {
    /// The compile requests this context has handed to its driver, oldest
    /// first, each as its vertex source and its fragment source.
    pub closed spec fn requests(&self) -> Seq<(Seq<char>, Seq<char>)> {
        self.requests@
    }

    /// The driver binding.
    pub closed spec fn device(&self) -> D {
        self.gl
    }

    /// A context around a driver binding, with no request handed to it yet.
    pub fn new(gl: D) -> (r: Context<D>)
        ensures
            r.device() == gl,
            r.requests() == Seq::<(Seq<char>, Seq<char>)>::empty(),
    {
        Context { gl, requests: Ghost(Seq::empty()) }
    }

    /// The driver binding, to read. It changes only through this context.
    pub fn gl(&self) -> (r: &D)
        ensures
            *r == self.device(),
    {
        &self.gl
    }

    /// Hands one compile request to the driver, unchanged, and returns its
    /// answer. This is the only place where the driver is reached.
    pub fn compile_program(&mut self, vertex_shader: &str, fragment_shader: &str) -> (r:
        std::result::Result<GLProgram, String>)
        ensures
            final(self).requests() == old(self).requests().push(
                (vertex_shader@, fragment_shader@),
            ),
    {
        let r = self.gl.compile_program(vertex_shader, fragment_shader);
        self.requests = Ghost(self.requests@.push((vertex_shader@, fragment_shader@)));
        r
    }
}

/// A shader program, made of a vertex shader and a fragment shader.
///
/// This is a lightweight handle to one compiled program on the GPU: clones
/// share that program, and it is released when the last of them is dropped.
#[derive(Debug)]
pub struct Shader {
    pub(crate) handle: Rc<GLProgram>,
}

impl View for Shader {
    type V = u32;

    /// The driver's name for the program this handle refers to.
    closed spec fn view(&self) -> u32 {
        self.handle@
    }
}

impl PartialEq for Shader {
    fn eq(&self, other: &Shader) -> (r: bool)
        ensures
            r == (self@ == other@),
    {
        self.handle.id == other.handle.id
    }
}

impl vstd::std_specs::cmp::PartialEqSpecImpl for Shader {
    open spec fn obeys_eq_spec() -> bool {
        true
    }

    open spec fn eq_spec(&self, other: &Shader) -> bool {
        self@ == other@
    }
}

impl Clone for Shader {
    /// Another handle to the same program; no GPU work is done.
    fn clone(&self) -> (r: Shader)
        ensures
            r@ == self@,
    {
        Shader { handle: share(&self.handle) }
    }
}

impl Shader {
    /// Takes ownership of a program that the driver has compiled and returns
    /// the first handle to it.
    pub fn from_handle(handle: GLProgram) -> (r: Shader)
        ensures
            r@ == handle@,
    {
        Shader { handle: Rc::new(handle) }
    }

    /// Turns the driver's answer to a compile request into a handle, or into
    /// `InvalidShader` with the driver's diagnostic.
    pub fn from_compiled(compiled: std::result::Result<GLProgram, String>) -> (r: Result<Shader>)
        ensures
            match compiled {
                Ok(program) => r matches Ok(s) && s@ == program@,
                Err(diagnostic) => r matches Err(TetraError::InvalidShader(m)) && m@ == diagnostic@,
            },
    {
        match compiled {
            Ok(program) => Ok(Shader::from_handle(program)),
            Err(diagnostic) => Err(TetraError::InvalidShader(diagnostic)),
        }
    }

    /// Compiles a new shader program from the given source strings.
    ///
    /// The two sources go to the driver once, unchanged and in that order.
    /// The driver decides whether they compile; whatever it answers, the
    /// result is a handle or `InvalidShader`, never another error.
    pub fn from_string<D: GraphicsDevice>(
        ctx: &mut Context<D>,
        vertex_shader: &str,
        fragment_shader: &str,
    ) -> (r: Result<Shader>)
        ensures
            final(ctx).requests() == old(ctx).requests().push(
                (vertex_shader@, fragment_shader@),
            ),
            r is Ok || r matches Err(TetraError::InvalidShader(_)),
    {
        let compiled = ctx.compile_program(vertex_shader, fragment_shader);
        Shader::from_compiled(compiled)
    }

    /// The number of handles that currently share this program.
    pub fn handle_count(&self) -> usize {
        strong_count(&self.handle)
    }
}

/// Every handle in `clones` comes from the first handle or from an earlier
/// entry of `clones`, so each refers to the first handle's program.
proof fn lemma_clones_share_program(first: Shader, clones: Seq<Shader>, n: int)
    requires
        0 <= n <= clones.len(),
        forall|i: int|
            0 <= i < clones.len() ==> (#[trigger] clones[i])@ == first@ || exists|j: int|
                0 <= j < i && (#[trigger] clones[j])@ == clones[i]@,
    ensures
        forall|i: int| 0 <= i < n ==> (#[trigger] clones[i])@ == first@,
    decreases n,
{
    if n > 0 {
        lemma_clones_share_program(first, clones, n - 1);
        let i = n - 1;
        if clones[i]@ != first@ {
            let j = choose|j: int| 0 <= j < i && (#[trigger] clones[j])@ == clones[i]@;
            assert(clones[j]@ == first@);
        }
    }
}

/// However many times a handle is cloned, each time from the first handle or
/// from any clone made before, every handle compares equal to every other and
/// to the first handle.
pub proof fn lemma_clones_compare_equal(first: Shader, clones: Seq<Shader>)
    requires
        forall|i: int|
            0 <= i < clones.len() ==> (#[trigger] clones[i])@ == first@ || exists|j: int|
                0 <= j < i && (#[trigger] clones[j])@ == clones[i]@,
    ensures
        first.eq_spec(&first),
        forall|i: int| 0 <= i < clones.len() ==> (#[trigger] clones[i]).eq_spec(&first),
        forall|i: int, j: int|
            #![trigger clones[i], clones[j]]
            0 <= i < clones.len() && 0 <= j < clones.len() ==> clones[i].eq_spec(&clones[j]),
{
    lemma_clones_share_program(first, clones, clones.len() as int);
}

/// Loading a shader from two files, one step at a time: the vertex file is
/// read first, then the fragment file, then the program is compiled. The
/// first failure ends the load.
#[derive(Debug)]
pub enum ShaderLoad {
    /// The vertex file is to be read next.
    ReadVertex { vertex_path: String, fragment_path: String },
    /// The vertex source is in; the fragment file is to be read next.
    ReadFragment { vertex_source: String, fragment_path: String },
    /// The load has ended, with a handle or the first error.
    Done(Result<Shader>),
}

impl ShaderLoad {
    /// Starts loading a shader from a vertex file and a fragment file.
    pub fn new(vertex_path: String, fragment_path: String) -> (r: ShaderLoad)
        ensures
            r == (ShaderLoad::ReadVertex { vertex_path, fragment_path }),
    {
        ShaderLoad::ReadVertex { vertex_path, fragment_path }
    }

    /// The path of the file to read next, or `None` once the load has ended.
    pub fn next_path(&self) -> (r: Option<&String>)
        ensures
            match self {
                ShaderLoad::ReadVertex { vertex_path, .. } => r == Some(vertex_path),
                ShaderLoad::ReadFragment { fragment_path, .. } => r == Some(fragment_path),
                ShaderLoad::Done(_) => r is None,
            },
    {
        match self {
            ShaderLoad::ReadVertex { vertex_path, .. } => Some(vertex_path),
            ShaderLoad::ReadFragment { fragment_path, .. } => Some(fragment_path),
            ShaderLoad::Done(_) => None,
        }
    }

    /// Takes the outcome of reading the file that `next_path` named. A failed
    /// read ends the load with `FailedToLoadAsset` for that path; once both
    /// sources are in, the program is compiled through `ctx`, which is the
    /// only step that reaches the driver. A load that has ended ignores `read`.
    pub fn advance<D: GraphicsDevice>(
        self,
        ctx: &mut Context<D>,
        read: std::io::Result<String>,
    ) -> (r: ShaderLoad)
        ensures
            match (self, read) {
                (ShaderLoad::ReadFragment { vertex_source, .. }, Ok(source)) => final(ctx).requests()
                    == old(ctx).requests().push((vertex_source@, source@)),
                _ => *final(ctx) == *old(ctx),
            },
            match (self, read) {
                (ShaderLoad::ReadVertex { fragment_path, .. }, Ok(source)) => r == (
                ShaderLoad::ReadFragment { vertex_source: source, fragment_path }),
                (ShaderLoad::ReadVertex { vertex_path, .. }, Err(reason)) => r == ShaderLoad::Done(
                    Err(TetraError::FailedToLoadAsset { reason, path: vertex_path }),
                ),
                (ShaderLoad::ReadFragment { .. }, Ok(_)) => r matches ShaderLoad::Done(res) && (
                res is Ok || res matches Err(TetraError::InvalidShader(_))),
                (ShaderLoad::ReadFragment { fragment_path, .. }, Err(reason)) => r
                    == ShaderLoad::Done(
                    Err(TetraError::FailedToLoadAsset { reason, path: fragment_path }),
                ),
                (ShaderLoad::Done(res), _) => r == ShaderLoad::Done(res),
            },
    {
        match self {
            ShaderLoad::ReadVertex { vertex_path, fragment_path } => match read {
                Ok(vertex_source) => ShaderLoad::ReadFragment { vertex_source, fragment_path },
                Err(reason) => ShaderLoad::Done(
                    Err(TetraError::FailedToLoadAsset { reason, path: vertex_path }),
                ),
            },
            ShaderLoad::ReadFragment { vertex_source, fragment_path } => match read {
                Ok(fragment_source) => ShaderLoad::Done(
                    Shader::from_string(ctx, vertex_source.as_str(), fragment_source.as_str()),
                ),
                Err(reason) => ShaderLoad::Done(
                    Err(TetraError::FailedToLoadAsset { reason, path: fragment_path }),
                ),
            },
            ShaderLoad::Done(res) => ShaderLoad::Done(res),
        }
    }

    /// The outcome of the load once it has ended, or `None` while a file is
    /// still to be read.
    pub fn finish(self) -> (r: Option<Result<Shader>>)
        ensures
            match self {
                ShaderLoad::Done(res) => r == Some(res),
                _ => r is None,
            },
    {
        match self {
            ShaderLoad::Done(res) => Some(res),
            _ => None,
        }
    }
}

} // verus!
