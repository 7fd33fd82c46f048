//! A linked shader program: an immutable handle plus the uniform locations
//! resolved once at creation and cached, so lookups are pure and touch no
//! GPU state.

use vstd::prelude::*;

use crate::errors::LifeError;
use crate::errors::ShaderStage;

verus! {

/// One active uniform of a linked program: its name and the binding
/// location the host resolved for it.
#[derive(Debug)]
pub struct Uniform {
    pub name: String,
    pub location: i32,
}

/// First-match lookup of a uniform name in a cached location list.
pub open spec fn spec_lookup(entries: Seq<Uniform>, name: Seq<char>) -> Option<i32>
    decreases entries.len(),
{
    if entries.len() == 0 {
        None
    } else if entries[0].name@ == name {
        Some(entries[0].location)
    } else {
        spec_lookup(entries.drop_first(), name)
    }
}

/// A name resolves to no location exactly when no cached uniform bears it.
pub proof fn lemma_lookup_none(entries: Seq<Uniform>, name: Seq<char>)
    ensures
        spec_lookup(entries, name) is None <==> (forall|k: int|
            0 <= k < entries.len() ==> entries[k].name@ != name),
    decreases entries.len(),
{
    if entries.len() == 0 {
    } else {
        lemma_lookup_none(entries.drop_first(), name);
        assert forall|k: int| 1 <= k < entries.len() implies entries.drop_first()[k - 1]
            == entries[k] by {}
        if entries[0].name@ != name && (forall|k: int|
            0 <= k < entries.drop_first().len() ==> entries.drop_first()[k].name@ != name) {
            assert forall|k: int| 0 <= k < entries.len() implies entries[k].name@ != name by {
                if k >= 1 {
                    assert(entries.drop_first()[k - 1].name@ != name);
                }
            }
        }
    }
}

/// An immutable linked GPU program: the host's handle for it, usable to
/// activate the program for subsequent draw calls, plus its cached uniform
/// locations.
#[derive(Debug)]
pub struct ShaderProgram {
    pub handle: u32,
    pub uniforms: Vec<Uniform>,
}

impl ShaderProgram {
    /// Judges the outcome of building a program from a vertex and a
    /// fragment stage, as the host's graphics service reports it. A stage
    /// that failed to compile yields `ShaderCompile` with that stage's
    /// diagnostic, the vertex stage judged first; a failed link yields
    /// `ShaderLink`; otherwise the result is the linked program under
    /// `handle` with its active uniforms cached.
    pub fn create(
        handle: u32,
        vertex_compile: Result<(), String>,
        fragment_compile: Result<(), String>,
        link: Result<Vec<Uniform>, String>,
    ) -> (result: Result<ShaderProgram, LifeError>)
        ensures
            (vertex_compile matches Err(d) ==> result == Err::<ShaderProgram, LifeError>(
                LifeError::ShaderCompile { stage: ShaderStage::Vertex, diagnostic: d },
            )),
            vertex_compile is Ok ==> (fragment_compile matches Err(d) ==> result == Err::<
                ShaderProgram,
                LifeError,
            >(LifeError::ShaderCompile { stage: ShaderStage::Fragment, diagnostic: d })),
            vertex_compile is Ok && fragment_compile is Ok ==> (link matches Err(d) ==> result
                == Err::<ShaderProgram, LifeError>(LifeError::ShaderLink { diagnostic: d })),
            vertex_compile is Ok && fragment_compile is Ok ==> (link matches Ok(uniforms)
                ==> result matches Ok(p) && p.handle == handle && p.uniforms == uniforms),
    {
        match vertex_compile {
            Err(diagnostic) => Err(
                LifeError::ShaderCompile { stage: ShaderStage::Vertex, diagnostic },
            ),
            Ok(()) => match fragment_compile {
                Err(diagnostic) => Err(
                    LifeError::ShaderCompile { stage: ShaderStage::Fragment, diagnostic },
                ),
                Ok(()) => match link {
                    Err(diagnostic) => Err(LifeError::ShaderLink { diagnostic }),
                    Ok(uniforms) => Ok(ShaderProgram { handle, uniforms }),
                },
            },
        }
    }

    /// The cached binding location of the named active uniform. Fails with
    /// `UnknownUniform` exactly when no uniform of that name exists in the
    /// linked program; the lookup reads only the cache.
    pub fn uniform_location(&self, name: &String) -> (result: Result<i32, LifeError>)
        ensures
            (result matches Ok(location) ==> spec_lookup(self.uniforms@, name@) == Some(
                location,
            )),
            (result matches Err(e) ==> spec_lookup(self.uniforms@, name@) is None && e
                == LifeError::UnknownUniform { name: *name }),
    {
        let n = self.uniforms.len();
        let mut i: usize = 0;
        proof {
            assert(self.uniforms@.skip(0) =~= self.uniforms@);
        }
        while i < n
            invariant
                n == self.uniforms@.len(),
                i <= n,
                spec_lookup(self.uniforms@, name@) == spec_lookup(
                    self.uniforms@.skip(i as int),
                    name@,
                ),
            decreases n - i,
        {
            let entry = &self.uniforms[i];
            proof {
                assert(self.uniforms@.skip(i as int)[0] == self.uniforms@[i as int]);
            }
            if entry.name == *name {
                return Ok(entry.location);
            }
            proof {
                assert(self.uniforms@.skip(i as int).drop_first() =~= self.uniforms@.skip(
                    i as int + 1,
                ));
            }
            i += 1;
        }
        Err(LifeError::UnknownUniform { name: name.clone() })
    }
}

} // verus!
