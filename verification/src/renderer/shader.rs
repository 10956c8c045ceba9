//! Shaders and shader programs: their names in the driver, and the table of
//! uniform locations that a program has looked up.

use vstd::prelude::*;
use crate::renderer::constants;

verus! {

/// The pipeline stage that a shader is written for.
#[allow(non_camel_case_types)]
#[derive(Clone, Copy, Debug, PartialEq, Eq)]
pub enum ShaderType {
    VERTEX,
    TESSCRTL,
    TESSEVAL,
    GEOMETRY,
    FRAGMENT,
}

impl ShaderType {
    /// The driver's enumerant for the stage.
    pub open spec fn gl_type_spec(self) -> u32 {
        match self {
            ShaderType::VERTEX => 0x8B31,
            ShaderType::FRAGMENT => 0x8B30,
            ShaderType::GEOMETRY => 0x8DD9,
            ShaderType::TESSEVAL => 0x8E87,
            ShaderType::TESSCRTL => 0x8E88,
        }
    }

    /// The driver's enumerant for the stage: `VERTEX_SHADER`,
    /// `FRAGMENT_SHADER`, `GEOMETRY_SHADER`, `TESS_EVALUATION_SHADER` or
    /// `TESS_CONTROL_SHADER`.
    pub fn to_gl_type(&self) -> (r: u32)
        ensures
            r == self.gl_type_spec(),
    {
        match self {
            ShaderType::VERTEX => constants::vertex_shader(),
            ShaderType::FRAGMENT => constants::fragment_shader(),
            ShaderType::GEOMETRY => constants::geometry_shader(),
            ShaderType::TESSEVAL => constants::tess_evaluation_shader(),
            ShaderType::TESSCRTL => constants::tess_control_shader(),
        }
    }
}

/// One compiled shader: its name in the driver, its stage, and the source it
/// was compiled from.
pub struct Shader {
    pub shader_id: u32,
    pub shader_type: ShaderType,
    pub source_file: String,
    pub source: String,
}

impl Shader {
    /// The record of the shader that the driver named `shader_id` when it
    /// compiled `source`, the contents of the file `source_file`, for the stage
    /// `shader_type`.
    pub fn new(shader_type: ShaderType, source_file: String, source: String, shader_id: u32) -> (r:
        Shader)
        ensures
            r.shader_id == shader_id,
            r.shader_type == shader_type,
            r.source_file == source_file,
            r.source == source,
    {
        Shader { shader_id, shader_type, source_file, source }
    }
}

/// The uniform locations that a program has registered, by name. No name
/// occurs twice.
///
/// The table is a list and not a hash map: what vstd states of a hash map
/// holds only for keys with a key model, and it gives `String` none.
pub struct UniformTable {
    entries: Vec<(String, i32)>,
}

impl UniformTable {
    /// No name occurs twice.
    pub closed spec fn wf(self) -> bool {
        forall|i: int, j: int|
            0 <= i < j < self.entries@.len() ==> self.entries@[i].0@ != self.entries@[j].0@
    }

    /// The table as a map from a uniform's name to its location.
    pub closed spec fn view(self) -> Map<Seq<char>, i32> {
        Map::new(
            |name: Seq<char>|
                exists|i: int| 0 <= i < self.entries@.len() && self.entries@[i].0@ == name,
            |name: Seq<char>|
                self.entries@[choose|i: int|
                    0 <= i < self.entries@.len() && self.entries@[i].0@ == name].1,
        )
    }

    /// A table without entries.
    pub fn new() -> (r: UniformTable)
        ensures
            r.wf(),
            r@ == Map::<Seq<char>, i32>::empty(),
    {
        let r = UniformTable { entries: Vec::new() };
        assert(r@ =~= Map::<Seq<char>, i32>::empty());
        r
    }

    /// In a table without repeated names, an entry is what the map holds for
    /// its name.
    proof fn lemma_entry_is_mapped(self, i: int)
        requires
            self.wf(),
            0 <= i < self.entries@.len(),
        ensures
            self@.contains_key(self.entries@[i].0@),
            self@[self.entries@[i].0@] == self.entries@[i].1,
    {
        let name = self.entries@[i].0@;
        let j = choose|j: int| 0 <= j < self.entries@.len() && self.entries@[j].0@ == name;
        assert(i == j) by {
            if i < j {
                assert(self.entries@[i].0@ != self.entries@[j].0@);
            } else if j < i {
                assert(self.entries@[j].0@ != self.entries@[i].0@);
            }
        }
    }

    fn position(&self, name: &String) -> (r: Option<usize>)
        ensures
            match r {
                Some(i) => i < self.entries@.len() && self.entries@[i as int].0@ == name@,
                None => forall|i: int| 0 <= i < self.entries@.len() ==> self.entries@[i].0@ != name@,
            },
    {
        let mut i: usize = 0;
        while i < self.entries.len()
            invariant
                i <= self.entries@.len(),
                forall|j: int| 0 <= j < i ==> self.entries@[j].0@ != name@,
            decreases self.entries@.len() - i,
        {
            if self.entries[i].0 == *name {
                return Some(i);
            }
            i += 1;
        }
        None
    }

    /// The location registered under `name`, if there is one.
    pub fn get(&self, name: &str) -> (r: Option<i32>)
        requires
            self.wf(),
        ensures
            r == (if self@.contains_key(name@) {
                Some(self@[name@])
            } else {
                None
            }),
    {
        let key = name.to_owned();
        match self.position(&key) {
            Some(i) => {
                proof {
                    self.lemma_entry_is_mapped(i as int);
                }
                Some(self.entries[i].1)
            },
            None => None,
        }
    }

    /// Registers `loc` under `name`, in place of what was registered under that
    /// name before.
    pub fn insert(&mut self, name: &str, loc: i32)
        requires
            old(self).wf(),
        ensures
            final(self).wf(),
            final(self)@ == old(self)@.insert(name@, loc),
    {
        let key = name.to_owned();
        let found = self.position(&key);
        match found {
            Some(i) => {
                self.entries.set(i, (key, loc));
            },
            None => {
                self.entries.push((key, loc));
            },
        }
        proof {
            let before = *old(self);
            let after = *self;
            let n = before.entries@.len() as int;
            let at = match found {
                Some(i) => i as int,
                None => n,
            };
            assert(after.entries@[at].0@ == name@ && after.entries@[at].1 == loc);
            assert forall|j: int| 0 <= j < after.entries@.len() && j != at implies after.entries@[j]
                == before.entries@[j] && after.entries@[j].0@ != name@ by {
                if found is Some {
                    if j < at {
                        assert(before.entries@[j].0@ != before.entries@[at].0@);
                    } else {
                        assert(before.entries@[at].0@ != before.entries@[j].0@);
                    }
                }
            }
            assert(after.wf()) by {
                assert forall|i: int, j: int| 0 <= i < j < after.entries@.len() implies after.entries@[i].0@
                    != after.entries@[j].0@ by {
                    if i != at && j != at {
                        assert(before.entries@[i].0@ != before.entries@[j].0@);
                    }
                }
            }
            let target = before@.insert(name@, loc);
            assert forall|k: Seq<char>| after@.contains_key(k) == target.contains_key(k) by {
                if after@.contains_key(k) {
                    let j = choose|j: int| 0 <= j < after.entries@.len() && after.entries@[j].0@ == k;
                    if j != at {
                        before.lemma_entry_is_mapped(j);
                    }
                }
                if target.contains_key(k) {
                    if k == name@ {
                        after.lemma_entry_is_mapped(at);
                    } else {
                        let j = choose|j: int|
                            0 <= j < before.entries@.len() && before.entries@[j].0@ == k;
                        assert(j != at);
                        after.lemma_entry_is_mapped(j);
                    }
                }
            }
            assert forall|k: Seq<char>| after@.contains_key(k) implies after@[k] == target[k] by {
                let j = choose|j: int| 0 <= j < after.entries@.len() && after.entries@[j].0@ == k;
                after.lemma_entry_is_mapped(j);
                if j != at {
                    before.lemma_entry_is_mapped(j);
                }
            }
            assert(after@ =~= target);
        }
    }
}

/// A shader program: its name in the driver and the uniform locations that
/// were looked up in it.
pub struct Program {
    pub program_id: u32,
    pub uniform_loc: UniformTable,
}

impl Program {
    /// The record of the program that the driver named `program_id`, with no
    /// uniform registered.
    pub fn new(program_id: u32) -> (r: Program)
        ensures
            r.program_id == program_id,
            r.uniform_loc.wf(),
            r.uniform_loc@ == Map::<Seq<char>, i32>::empty(),
    {
        Program { program_id, uniform_loc: UniformTable::new() }
    }

    /// Remembers that the driver gave `loc` as the location of the uniform
    /// `name`. A second registration under one name replaces the first.
    pub fn register_uniform(&mut self, name: &str, loc: i32)
        requires
            old(self).uniform_loc.wf(),
        ensures
            final(self).uniform_loc.wf(),
            final(self).program_id == old(self).program_id,
            final(self).uniform_loc@ == old(self).uniform_loc@.insert(name@, loc),
    {
        self.uniform_loc.insert(name, loc);
    }

    /// The location registered for `name`, or `None` where none was.
    pub fn find_uniform(&self, name: &str) -> (r: Option<i32>)
        requires
            self.uniform_loc.wf(),
        ensures
            r == (if self.uniform_loc@.contains_key(name@) {
                Some(self.uniform_loc@[name@])
            } else {
                None
            }),
    {
        self.uniform_loc.get(name)
    }

    /// The location registered for `name`. To ask for a uniform that was never
    /// registered is a caller's error.
    pub fn get_uniform(&self, name: &str) -> (r: i32)
        requires
            self.uniform_loc.wf(),
            self.uniform_loc@.contains_key(name@),
        ensures
            r == self.uniform_loc@[name@],
    {
        self.uniform_loc.get(name).unwrap()
    }
}

} // verus!
