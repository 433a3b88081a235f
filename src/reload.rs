use vstd::prelude::*;
use crate::event::{actionable, ShaderSource, WatchEvent};
use crate::material::{MaterialHandle, MaterialRequest, MaterialState};

verus! {

/// A shader that failed to translate, or that the renderer refused, with a
/// human-readable diagnostic.
#[derive(Debug, Clone, PartialEq, Eq)]
pub struct CompileError {
    message: String,
}

impl CompileError {
    pub closed spec fn view(&self) -> Seq<char> {
        self.message@
    }

    pub fn new(message: String) -> (e: CompileError)
        ensures
            e.view() == message@,
    {
        CompileError { message }
    }

    /// The diagnostic text.
    pub fn message(&self) -> (r: String)
        ensures
            r@ == self.view(),
    {
        self.message.clone()
    }
}

/// A renderer-owned mesh, known to the library by its id.
#[derive(Debug, Clone, Copy, PartialEq, Eq)]
pub struct MeshHandle(pub u64);

/// One object to draw: a mesh with a bound material, at the identity
/// transform.
#[derive(Debug, Clone, Copy, PartialEq, Eq)]
pub struct DrawObject {
    pub mesh: u64,
    pub material: u64,
}

/// What became of a reload: either a new material was installed and the
/// superseded one is handed out for release, or nothing changed and the
/// diagnostic is to be reported.
#[derive(Debug, PartialEq, Eq)]
pub enum ReloadOutcome {
    Swapped(MaterialHandle),
    Failed(CompileError),
}

/// What the renderer receives at the end of a frame: the animation time, in
/// hundredths of a time unit, and the objects to draw.
#[derive(Debug, PartialEq, Eq)]
pub struct FramePlan {
    pub time_ticks: u64,
    pub objects: Vec<DrawObject>,
}

/// The id of the material that loading produced, if it succeeded.
pub open spec fn loaded_id(loaded: Result<MaterialHandle, CompileError>) -> Option<u64> {
    match loaded {
        Ok(h) => Some(h.0),
        Err(_) => None,
    }
}

/// The bound material after a reload whose outcome is `loaded`: the new one
/// on success, the previous one otherwise.
pub open spec fn next_active(active: u64, loaded: Option<u64>) -> u64 {
    match loaded {
        Some(h) => h,
        None => active,
    }
}

/// The frame counter after one more frame; it stops at its largest value.
pub open spec fn next_ticks(t: u64) -> u64 {
    if t < u64::MAX {
        (t + 1) as u64
    } else {
        t
    }
}

/// The per-frame orchestration of the live reload: which polled events lead
/// to a recompile, the swap-or-retain decision, and the frame's draw list.
#[derive(Debug)]
pub struct ReloadDriver {
    source: ShaderSource,
    material: MaterialState,
    mesh: MeshHandle,
    ticks: u64,
}

impl ReloadDriver {
    pub closed spec fn source_path(&self) -> Seq<char> {
        self.source.view()
    }

    pub closed spec fn active_id(&self) -> u64 {
        self.material.active_id()
    }

    pub closed spec fn vertex_code(&self) -> Seq<u8> {
        self.material.vertex_code()
    }

    pub closed spec fn mesh_id(&self) -> u64 {
        self.mesh.0
    }

    pub closed spec fn ticks(&self) -> u64 {
        self.ticks
    }

    /// Starts with the material loaded at startup bound to the quad mesh, at
    /// time zero.
    pub fn new(source: ShaderSource, mesh: MeshHandle, initial: MaterialHandle, vertex: Vec<u8>) -> (d:
        ReloadDriver)
        ensures
            d.source_path() == source.view(),
            d.mesh_id() == mesh.0,
            d.active_id() == initial.0,
            d.vertex_code() == vertex@,
            d.ticks() == 0,
    {
        ReloadDriver { source, material: MaterialState::new(initial, vertex), mesh, ticks: 0 }
    }

    pub fn source(&self) -> (r: &ShaderSource)
        ensures
            r.view() == self.source_path(),
    {
        &self.source
    }

    /// The id of the material bound now.
    pub fn active(&self) -> (r: u64)
        ensures
            r == self.active_id(),
    {
        self.material.active().id()
    }

    /// Whether the event polled this frame (at most one) calls for a
    /// recompile.
    pub fn wants_reload(&self, polled: &Option<WatchEvent>) -> (r: bool)
        ensures
            r == match *polled {
                Some(ev) => actionable(ev, self.source_path()),
                None => false,
            },
    {
        match polled {
            Some(ev) => self.source.is_actionable(ev),
            None => false,
        }
    }

    /// Turns the compiler's answer into a registration request for the
    /// renderer, or into the error to report; on failure nothing is to be
    /// registered.
    pub fn prepare(&self, compiled: Result<Vec<u8>, String>) -> (r: Result<MaterialRequest, CompileError>)
        ensures
            match compiled {
                Ok(code) => r matches Ok(req) && req.vertex@ == self.vertex_code() && req.fragment@
                    == code@,
                Err(msg) => r matches Err(e) && e.view() == msg@,
            },
    {
        match compiled {
            Ok(code) => Ok(self.material.request(code)),
            Err(msg) => Err(CompileError::new(msg)),
        }
    }

    /// The swap-or-retain decision. On success the new handle is installed
    /// first and the superseded one is returned for release afterwards; on
    /// failure the bound material is kept and the error is returned to be
    /// reported once.
    pub fn complete_reload(&mut self, loaded: Result<MaterialHandle, CompileError>) -> (r:
        ReloadOutcome)
        ensures
            final(self).active_id() == next_active(old(self).active_id(), loaded_id(loaded)),
            final(self).source_path() == old(self).source_path(),
            final(self).vertex_code() == old(self).vertex_code(),
            final(self).mesh_id() == old(self).mesh_id(),
            final(self).ticks() == old(self).ticks(),
            match loaded {
                Ok(_) => r matches ReloadOutcome::Swapped(h) && h.0 == old(self).active_id(),
                Err(e) => r == ReloadOutcome::Failed(e),
            },
    {
        match loaded {
            Ok(fresh) => ReloadOutcome::Swapped(self.material.swap(fresh)),
            Err(e) => ReloadOutcome::Failed(e),
        }
    }

    /// Ends the frame: reports the current time and the single draw object,
    /// the quad with the bound material, then advances the time.
    pub fn end_frame(&mut self) -> (r: FramePlan)
        ensures
            r.time_ticks == old(self).ticks(),
            r.objects@ == seq![
                (DrawObject { mesh: old(self).mesh_id(), material: old(self).active_id() }),
            ],
            final(self).ticks() == next_ticks(old(self).ticks()),
            final(self).active_id() == old(self).active_id(),
            final(self).source_path() == old(self).source_path(),
            final(self).vertex_code() == old(self).vertex_code(),
            final(self).mesh_id() == old(self).mesh_id(),
    {
        let time_ticks = self.ticks;
        if self.ticks < u64::MAX {
            self.ticks = self.ticks + 1;
        }
        let object = DrawObject { mesh: self.mesh.0, material: self.material.active().id() };
        let objects = vec![object];
        proof {
            assert(objects@ =~= seq![object]);
        }
        FramePlan { time_ticks, objects }
    }
}

} // verus!
