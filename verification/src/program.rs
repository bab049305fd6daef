//! The linked program and its typed uniform-setting surface.
//!
//! A [`Shader`] wraps the handle of a successfully linked program together
//! with the program's reflection data: the names of its active uniforms and
//! their locations.  Uniform values are pushed by name under one of two
//! policies.  An *optional* set degrades to a silent no-op when the name is
//! absent — best-effort bindings such as texture units rely on this.  A
//! *required* set fails with [`ShaderError::MissingRequiredUniform`] when
//! the name is absent — load-bearing transform uniforms rely on that.  The
//! two policies are deliberately distinct and both are pinned by contract.
//!
//! The library never talks to the driver: each setter returns the
//! [`UniformCommand`] the runner must perform, and mirrors the written
//! value so that callers and tests can read back what each uniform holds.

use crate::context::RenderContext;
use crate::error::{ErrorModel, ShaderError};
use vstd::prelude::*;
use vstd::string::StringExecFns;

verus! {

/// One entry of a program's reflection data: an active uniform's name and
/// its location.
pub struct UniformInfo {
    pub name: String,
    pub location: u32,
}

/// A value that can be pushed into a uniform.  The library never
/// interprets numeric payloads: a float travels as the bit pattern of its
/// IEEE-754 representation, and a 4x4 matrix as the bit patterns of its 16
/// entries in column-major order.
#[derive(Debug)]
pub enum UniformValue {
    Int(i32),
    Bool(bool),
    FloatBits(u32),
    Mat4Bits(Vec<u32>),
}

/// Mathematical model of a [`UniformValue`].
#[verifier::ext_equal]
pub enum ValueModel {
    Int(i32),
    Bool(bool),
    FloatBits(u32),
    Mat4Bits(Seq<u32>),
}

impl View for UniformValue {
    type V = ValueModel;

    open spec fn view(&self) -> ValueModel {
        match self {
            UniformValue::Int(x) => ValueModel::Int(*x),
            UniformValue::Bool(b) => ValueModel::Bool(*b),
            UniformValue::FloatBits(bits) => ValueModel::FloatBits(*bits),
            UniformValue::Mat4Bits(words) => ValueModel::Mat4Bits(words@),
        }
    }
}

/// The upload the runner must perform against the driver: write `value`
/// to the uniform at `location` of the active program.
#[derive(Debug)]
pub struct UniformCommand {
    pub location: u32,
    pub value: UniformValue,
}

/// Mathematical model of a [`Shader`]'s reflection data and the values
/// written so far: one slot per active uniform, `None` until written.
#[verifier::ext_equal]
pub struct ShaderModel {
    pub id: u32,
    pub uniforms: Seq<UniformInfo>,
    pub values: Seq<Option<ValueModel>>,
}

/// No two active uniforms share a name — the driver's reflection data
/// satisfies this, and the constructor checks it.
pub open spec fn distinct_names(t: Seq<UniformInfo>) -> bool {
    forall|i: int, j: int| 0 <= i < j < t.len() ==> t[i].name@ != t[j].name@
}

/// The slot a name resolves to: the first entry carrying it, if any.
pub open spec fn name_index(t: Seq<UniformInfo>, name: Seq<char>) -> Option<int>
    decreases t.len(),
{
    if t.len() == 0 {
        None
    } else if t[0].name@ == name {
        Some(0int)
    } else {
        match name_index(t.drop_first(), name) {
            Some(i) => Some(i + 1),
            None => None,
        }
    }
}

/// A resolved name points inside the table, at an entry carrying exactly
/// that name; an unresolved name occurs nowhere in the table.
pub proof fn lemma_name_index_spread(t: Seq<UniformInfo>, name: Seq<char>)
    ensures
        match name_index(t, name) {
            Some(i) => 0 <= i < t.len() && t[i].name@ == name,
            None => forall|k: int| 0 <= k < t.len() ==> t[k].name@ != name,
        },
    decreases t.len(),
{
    if t.len() != 0 && t[0].name@ != name {
        let rest = t.drop_first();
        lemma_name_index_spread(rest, name);
        if name_index(rest, name) is Some {
            let i = name_index(rest, name).unwrap();
            assert(t[i + 1] == rest[i]);
        } else {
            assert forall|k: int| 0 <= k < t.len() implies t[k].name@ != name by {
                if k >= 1 {
                    assert(t[k] == rest[k - 1]);
                }
            }
        }
    }
}

/// An entry that carries the name, with no earlier entry carrying it, is
/// the one the name resolves to.
pub proof fn lemma_name_index_at(t: Seq<UniformInfo>, name: Seq<char>, i: int)
    requires
        0 <= i < t.len(),
        t[i].name@ == name,
        forall|k: int| 0 <= k < i ==> t[k].name@ != name,
    ensures
        name_index(t, name) == Some(i),
    decreases t.len(),
{
    if i != 0 {
        assert(forall|k: int| 0 <= k < t.drop_first().len() ==> t.drop_first()[k] == t[k + 1]);
        lemma_name_index_at(t.drop_first(), name, i - 1);
    }
}

/// A name that no entry carries resolves to nothing.
pub proof fn lemma_name_index_absent(t: Seq<UniformInfo>, name: Seq<char>)
    requires
        forall|k: int| 0 <= k < t.len() ==> t[k].name@ != name,
    ensures
        name_index(t, name) is None,
    decreases t.len(),
{
    if t.len() != 0 {
        assert(forall|k: int| 0 <= k < t.drop_first().len() ==> t.drop_first()[k] == t[k + 1]);
        lemma_name_index_absent(t.drop_first(), name);
    }
}

/// The per-slot value mirror, as a sequence of models.
pub open spec fn deep_values(vs: Seq<Option<UniformValue>>) -> Seq<Option<ValueModel>> {
    Seq::new(
        vs.len(),
        |i: int|
            match vs[i] {
                Some(v) => Some(v@),
                None => None,
            },
    )
}

/// A well-formed program: reflection names are distinct and there is one
/// value slot per active uniform.
pub open spec fn shader_wf(m: ShaderModel) -> bool {
    &&& distinct_names(m.uniforms)
    &&& m.values.len() == m.uniforms.len()
}

/// What a name currently holds: the value written to its slot, or `None`
/// when the name is absent or nothing was written yet.
pub open spec fn value_of_model(m: ShaderModel, name: Seq<char>) -> Option<ValueModel> {
    match name_index(m.uniforms, name) {
        Some(i) => if 0 <= i < m.values.len() {
            m.values[i]
        } else {
            None
        },
        None => None,
    }
}

/// The whole effect of an optional set: when the name resolves, the one
/// slot holds the written value and the returned command uploads it to the
/// name's location; when it does not, nothing changes and no command is
/// returned.
pub open spec fn optional_set_post(
    pre: ShaderModel,
    post: ShaderModel,
    name: Seq<char>,
    value: ValueModel,
    cmd: Option<UniformCommand>,
) -> bool {
    &&& post.uniforms == pre.uniforms
    &&& match name_index(pre.uniforms, name) {
        Some(i) => {
            &&& cmd matches Some(c) && c.location == pre.uniforms[i].location && c.value@ == value
            &&& post.values == pre.values.update(i, Some(value))
        },
        None => {
            &&& cmd is None
            &&& post.values == pre.values
        },
    }
}

/// The whole effect of a required set: as the optional one when the name
/// resolves; when it does not, the result is a `MissingRequiredUniform`
/// naming it, nothing changes, and no upload happens.
pub open spec fn required_set_post(
    pre: ShaderModel,
    post: ShaderModel,
    name: Seq<char>,
    value: ValueModel,
    r: Result<UniformCommand, ShaderError>,
) -> bool {
    &&& post.uniforms == pre.uniforms
    &&& match name_index(pre.uniforms, name) {
        Some(i) => {
            &&& r matches Ok(c) && c.location == pre.uniforms[i].location && c.value@ == value
            &&& post.values == pre.values.update(i, Some(value))
        },
        None => {
            &&& r matches Err(e) && e@ == (ErrorModel::MissingUniform { name: name })
            &&& post.values == pre.values
        },
    }
}

/// The driver's name lookup answers with a sentinel instead of an error:
/// any negative location means "not found".  Wrap the raw answer before it
/// reaches any logic, so that no sentinel is ever uploaded to.
pub fn location_from_raw(raw: i32) -> (r: Option<u32>)
    ensures
        raw < 0 ==> r is None,
        raw >= 0 ==> r == Some(raw as u32),
{
    if raw < 0 {
        None
    } else {
        Some(raw as u32)
    }
}

/// Word-for-word copy of a matrix payload.
fn copy_words(v: &Vec<u32>) -> (r: Vec<u32>)
    ensures
        r@ == v@,
{
    let mut r: Vec<u32> = Vec::new();
    let mut i: usize = 0;
    while i < v.len()
        invariant
            i <= v.len(),
            r@ == v@.subrange(0, i as int),
        decreases v.len() - i,
    {
        r.push(v[i]);
        assert(r@ =~= v@.subrange(0, i + 1 as int));
        i = i + 1;
    }
    assert(r@ =~= v@);
    r
}

/// A copy of a value, equal to it in the model.
fn copy_value(v: &UniformValue) -> (r: UniformValue)
    ensures
        r@ == v@,
{
    match v {
        UniformValue::Int(x) => UniformValue::Int(*x),
        UniformValue::Bool(b) => UniformValue::Bool(*b),
        UniformValue::FloatBits(bits) => UniformValue::FloatBits(*bits),
        UniformValue::Mat4Bits(words) => UniformValue::Mat4Bits(copy_words(words)),
    }
}

/// A linked program: its driver handle and its reflection data, with a
/// mirror of every uniform value written through it.
pub struct Shader {
    id: u32,
    uniforms: Vec<UniformInfo>,
    values: Vec<Option<UniformValue>>,
}

impl View for Shader {
    type V = ShaderModel;

    closed spec fn view(&self) -> ShaderModel {
        ShaderModel { id: self.id, uniforms: self.uniforms@, values: deep_values(self.values@) }
    }
}

impl Shader {
    /// A program is only handed around well-formed.
    pub open spec fn wf(&self) -> bool {
        shader_wf(self@)
    }

    /// The program object's handle, as the driver assigned it at link
    /// time.
    pub fn id(&self) -> (h: u32)
        ensures
            h == self@.id,
    {
        self.id
    }

    /// Wraps a linked program's handle and its reflection data.  Answers
    /// `None` exactly when two reflection entries share a name — a table
    /// the by-name surface could not serve unambiguously.  All value slots
    /// start out unwritten.
    pub fn new(id: u32, uniforms: Vec<UniformInfo>) -> (r: Option<Shader>)
        ensures
            r is Some <==> distinct_names(uniforms@),
            r matches Some(s) ==> {
                &&& s.wf()
                &&& s@.id == id
                &&& s@.uniforms == uniforms@
                &&& forall|k: int| 0 <= k < s@.values.len() ==> s@.values[k] is None
            },
    {
        let n = uniforms.len();
        let mut i: usize = 0;
        while i < n
            invariant
                n == uniforms@.len(),
                i <= n,
                forall|a: int, b: int|
                    0 <= a < b < n && a < i ==> uniforms@[a].name@ != uniforms@[b].name@,
            decreases n - i,
        {
            let mut j: usize = i + 1;
            while j < n
                invariant
                    n == uniforms@.len(),
                    i < n,
                    i + 1 <= j <= n,
                    forall|b: int| i < b < j ==> uniforms@[i as int].name@ != uniforms@[b].name@,
                decreases n - j,
            {
                if uniforms[i].name == uniforms[j].name {
                    assert(!distinct_names(uniforms@));
                    return None;
                }
                j = j + 1;
            }
            i = i + 1;
        }
        let mut values: Vec<Option<UniformValue>> = Vec::new();
        let mut k: usize = 0;
        while k < n
            invariant
                values@.len() == k,
                k <= n,
                forall|t: int| 0 <= t < k ==> values@[t] is None,
            decreases n - k,
        {
            values.push(None);
            k = k + 1;
        }
        Some(Shader { id: id, uniforms: uniforms, values: values })
    }

    /// Ends the program's lifetime: consumes the wrapper and hands back
    /// the handle, which the runner must delete with the driver's
    /// program-deletion call.
    pub fn release(self) -> (handle: u32)
        ensures
            handle == self@.id,
    {
        self.id
    }

    /// Makes this program the active one for subsequent uniform uploads
    /// and draw calls, recording it in the explicit context.  The runner
    /// must mirror this with the driver's activation call on the returned
    /// handle.  Activating twice in a row leaves the context exactly as
    /// activating once does.
    pub fn use_shader(&self, ctx: &mut RenderContext) -> (handle: u32)
        ensures
            handle == self@.id,
            *final(ctx) == crate::context::activate(*old(ctx), self@.id),
            final(ctx).active_program() == Some(self@.id),
    {
        ctx.set_active(self.id);
        self.id
    }

    /// The slot a name resolves to, if any.
    fn find_index(&self, name: &str) -> (r: Option<usize>)
        requires
            self.wf(),
        ensures
            match r {
                Some(i) => name_index(self@.uniforms, name@) == Some(i as int),
                None => name_index(self@.uniforms, name@) is None,
            },
    {
        let owned: String = name.to_owned();
        let n = self.uniforms.len();
        let mut j: usize = 0;
        while j < n
            invariant
                self.wf(),
                n == self.uniforms@.len(),
                j <= n,
                owned@ == name@,
                forall|k: int| 0 <= k < j ==> self.uniforms@[k].name@ != name@,
            decreases n - j,
        {
            if self.uniforms[j].name == owned {
                proof {
                    lemma_name_index_at(self.uniforms@, name@, j as int);
                }
                return Some(j);
            }
            j = j + 1;
        }
        proof {
            lemma_name_index_absent(self.uniforms@, name@);
        }
        None
    }

    /// The location a uniform name resolves to in this program's
    /// reflection data, if any.
    pub fn uniform_location(&self, name: &str) -> (r: Option<u32>)
        requires
            self.wf(),
        ensures
            match name_index(self@.uniforms, name@) {
                Some(i) => r == Some(self@.uniforms[i].location),
                None => r is None,
            },
    {
        match self.find_index(name) {
            Some(i) => {
                proof {
                    lemma_name_index_spread(self@.uniforms, name@);
                }
                Some(self.uniforms[i].location)
            },
            None => None,
        }
    }

    /// What a uniform name currently holds: the last value written through
    /// this surface, or `None` when the name is absent or unwritten.
    pub fn value(&self, name: &str) -> (r: Option<&UniformValue>)
        requires
            self.wf(),
        ensures
            match r {
                Some(v) => value_of_model(self@, name@) == Some(v@),
                None => value_of_model(self@, name@) is None,
            },
    {
        match self.find_index(name) {
            Some(i) => {
                proof {
                    lemma_name_index_spread(self@.uniforms, name@);
                }
                match &self.values[i] {
                    Some(v) => Some(v),
                    None => None,
                }
            },
            None => None,
        }
    }

    /// Pushes a value under the optional policy: a name absent from the
    /// reflection data makes the call a silent no-op that touches nothing.
    /// This program must be the active one, as uploads go to the active
    /// program's uniforms.
    pub fn set_optional(&mut self, ctx: &RenderContext, name: &str, value: UniformValue) -> (cmd:
        Option<UniformCommand>)
        requires
            old(self).wf(),
            ctx.active_program() == Some(old(self)@.id),
        ensures
            final(self).wf(),
            final(self)@.id == old(self)@.id,
            optional_set_post(old(self)@, final(self)@, name@, value@, cmd),
    {
        match self.find_index(name) {
            Some(i) => {
                proof {
                    lemma_name_index_spread(self@.uniforms, name@);
                }
                let location = self.uniforms[i].location;
                let stored = copy_value(&value);
                self.values.set(i, Some(stored));
                assert(deep_values(self.values@) =~= deep_values(old(self).values@).update(
                    i as int,
                    Some(value@),
                ));
                Some(UniformCommand { location: location, value: value })
            },
            None => None,
        }
    }

    /// Pushes a value under the required policy: a name absent from the
    /// reflection data is an error naming it, and nothing proceeds to the
    /// driver.  This program must be the active one.
    pub fn set_required(&mut self, ctx: &RenderContext, name: &str, value: UniformValue) -> (r:
        Result<UniformCommand, ShaderError>)
        requires
            old(self).wf(),
            ctx.active_program() == Some(old(self)@.id),
        ensures
            final(self).wf(),
            final(self)@.id == old(self)@.id,
            required_set_post(old(self)@, final(self)@, name@, value@, r),
    {
        match self.set_optional(ctx, name, value) {
            Some(c) => Ok(c),
            None => Err(ShaderError::MissingRequiredUniform { name: name.to_owned() }),
        }
    }

    /// Pushes an integer under the optional policy.
    pub fn set_int(&mut self, ctx: &RenderContext, name: &str, value: i32) -> (cmd: Option<
        UniformCommand,
    >)
        requires
            old(self).wf(),
            ctx.active_program() == Some(old(self)@.id),
        ensures
            final(self).wf(),
            final(self)@.id == old(self)@.id,
            optional_set_post(old(self)@, final(self)@, name@, ValueModel::Int(value), cmd),
    {
        self.set_optional(ctx, name, UniformValue::Int(value))
    }

    /// Pushes a boolean under the optional policy; the runner uploads it
    /// as the integer the driver expects.
    pub fn set_bool(&mut self, ctx: &RenderContext, name: &str, value: bool) -> (cmd: Option<
        UniformCommand,
    >)
        requires
            old(self).wf(),
            ctx.active_program() == Some(old(self)@.id),
        ensures
            final(self).wf(),
            final(self)@.id == old(self)@.id,
            optional_set_post(old(self)@, final(self)@, name@, ValueModel::Bool(value), cmd),
    {
        self.set_optional(ctx, name, UniformValue::Bool(value))
    }

    /// Pushes a float under the optional policy, carried as the bit
    /// pattern of its IEEE-754 representation and never interpreted here.
    pub fn set_float(&mut self, ctx: &RenderContext, name: &str, bits: u32) -> (cmd: Option<
        UniformCommand,
    >)
        requires
            old(self).wf(),
            ctx.active_program() == Some(old(self)@.id),
        ensures
            final(self).wf(),
            final(self)@.id == old(self)@.id,
            optional_set_post(old(self)@, final(self)@, name@, ValueModel::FloatBits(bits), cmd),
    {
        self.set_optional(ctx, name, UniformValue::FloatBits(bits))
    }

    /// Pushes a 4x4 matrix under the required policy, its 16 entries in
    /// column-major order as IEEE-754 bit patterns.  Transform matrices
    /// are load-bearing, so a missing name is an error, never a no-op.
    pub fn set_mat4(&mut self, ctx: &RenderContext, name: &str, bits: Vec<u32>) -> (r: Result<
        UniformCommand,
        ShaderError,
    >)
        requires
            old(self).wf(),
            ctx.active_program() == Some(old(self)@.id),
            bits@.len() == 16,
        ensures
            final(self).wf(),
            final(self)@.id == old(self)@.id,
            required_set_post(
                old(self)@,
                final(self)@,
                name@,
                ValueModel::Mat4Bits(bits@),
                r,
            ),
    {
        self.set_required(ctx, name, UniformValue::Mat4Bits(bits))
    }
}

/// Setting one name never touches what any other name holds: an optional
/// set of an absent name is a full no-op, and a set of a present name
/// changes that name's slot alone.
pub proof fn lemma_set_preserves_others(
    pre: ShaderModel,
    post: ShaderModel,
    name: Seq<char>,
    value: ValueModel,
    cmd: Option<UniformCommand>,
    other: Seq<char>,
)
    requires
        shader_wf(pre),
        optional_set_post(pre, post, name, value, cmd),
        other != name,
    ensures
        value_of_model(post, other) == value_of_model(pre, other),
{
    lemma_name_index_spread(pre.uniforms, name);
    lemma_name_index_spread(pre.uniforms, other);
}

/// After a set of a present name, that name reads back exactly the value
/// written.
pub proof fn lemma_set_updates_named(
    pre: ShaderModel,
    post: ShaderModel,
    name: Seq<char>,
    value: ValueModel,
    cmd: Option<UniformCommand>,
)
    requires
        shader_wf(pre),
        optional_set_post(pre, post, name, value, cmd),
        name_index(pre.uniforms, name) is Some,
    ensures
        value_of_model(post, name) == Some(value),
{
    lemma_name_index_spread(pre.uniforms, name);
}

/// The required policy agrees with the optional one wherever the name is
/// present; they differ only in how an absent name is answered.
pub proof fn lemma_required_set_agrees_when_present(
    pre: ShaderModel,
    post: ShaderModel,
    name: Seq<char>,
    value: ValueModel,
    r: Result<UniformCommand, ShaderError>,
)
    requires
        shader_wf(pre),
        required_set_post(pre, post, name, value, r),
        name_index(pre.uniforms, name) is Some,
    ensures
        r matches Ok(c) && optional_set_post(pre, post, name, value, Some(c)),
{
}

} // verus!
