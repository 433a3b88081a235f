use vstd::prelude::*;

verus! {

/// A renderer-owned shader resource, known to the library by its id.
///
/// The handle is move-only: the one bound to the drawn object is owned by
/// `MaterialState`, and a superseded one is handed back exactly once, to be
/// released.
#[derive(Debug, PartialEq, Eq)]
pub struct MaterialHandle(pub u64);

impl MaterialHandle {
    pub fn id(&self) -> (r: u64)
        ensures
            r == self.0,
    {
        self.0
    }
}

/// The material bound to the drawn object, together with the fixed
/// vertex-stage bytecode that every fragment stage is paired with.
#[derive(Debug)]
pub struct MaterialState {
    active: MaterialHandle,
    vertex: Vec<u8>,
}

/// What the renderer is asked to register: the fixed vertex stage, a freshly
/// compiled fragment stage, drawn as triangles.
#[derive(Debug, PartialEq, Eq)]
pub struct MaterialRequest {
    pub vertex: Vec<u8>,
    pub fragment: Vec<u8>,
}

impl MaterialState {
    /// The id of the handle that is bound now.
    pub closed spec fn active_id(&self) -> u64 {
        self.active.0
    }

    pub closed spec fn vertex_code(&self) -> Seq<u8> {
        self.vertex@
    }

    pub fn new(initial: MaterialHandle, vertex: Vec<u8>) -> (s: MaterialState)
        ensures
            s.active_id() == initial.0,
            s.vertex_code() == vertex@,
    {
        MaterialState { active: initial, vertex }
    }

    pub fn active(&self) -> (r: &MaterialHandle)
        ensures
            r.0 == self.active_id(),
    {
        &self.active
    }

    pub fn vertex(&self) -> (r: &Vec<u8>)
        ensures
            r@ == self.vertex_code(),
    {
        &self.vertex
    }

    /// Pairs freshly compiled fragment bytecode with the fixed vertex stage.
    pub fn request(&self, fragment: Vec<u8>) -> (r: MaterialRequest)
        ensures
            r.vertex@ == self.vertex_code(),
            r.fragment@ == fragment@,
    {
        MaterialRequest { vertex: self.vertex.clone(), fragment }
    }

    /// Installs `fresh` as the bound material and moves the superseded handle
    /// out, so that it is released only after its successor is in place.
    pub fn swap(&mut self, fresh: MaterialHandle) -> (superseded: MaterialHandle)
        ensures
            final(self).active_id() == fresh.0,
            superseded.0 == old(self).active_id(),
            final(self).vertex_code() == old(self).vertex_code(),
    {
        let mut fresh = fresh;
        std::mem::swap(&mut self.active, &mut fresh);
        fresh
    }
}

} // verus!
