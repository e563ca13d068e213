//! The scope store: an ordered stack of binding frames. The last frame is
//! current. Lookup and assignment scan from the current frame outward; a
//! binding goes into the current frame only and may not collide with a name
//! already bound there.
//!
//! Its view is the stack of frames, each frame the sequence of its bindings
//! in insertion order.

use vstd::prelude::*;

use crate::value::{err_dv, value_dv, ErrV, RuntimeError, Value, ValueV};

verus! {

/// The view of one frame: its bindings in insertion order.
pub type FrameV = Seq<(Seq<char>, ValueV)>;

/// The view of a scope store: its frames, outermost first.
pub type EnvV = Seq<FrameV>;

/// Ghost view of one frame.
pub open spec fn frame_dv(f: Seq<(String, Value)>) -> FrameV {
    Seq::new(f.len(), |i: int| (f[i].0@, value_dv(f[i].1)))
}

/// Ghost view of a frame stack.
pub open spec fn env_dv(st: Seq<Vec<(String, Value)>>) -> EnvV {
    Seq::new(st.len(), |i: int| frame_dv(st[i]@))
}

/// The first binding of `n` in `f` at or after position `i`.
pub open spec fn frame_lookup_from(f: FrameV, n: Seq<char>, i: int) -> Option<ValueV>
    decreases f.len() - i,
{
    if i < 0 || i >= f.len() {
        Option::None
    } else if f[i].0 == n {
        Option::Some(f[i].1)
    } else {
        frame_lookup_from(f, n, i + 1)
    }
}

/// The binding of `n` in `f`, if any.
pub open spec fn frame_lookup(f: FrameV, n: Seq<char>) -> Option<ValueV> {
    frame_lookup_from(f, n, 0)
}

/// Whether `f` binds `n`.
pub open spec fn frame_contains(f: FrameV, n: Seq<char>) -> bool {
    frame_lookup(f, n) is Some
}

/// `f` with the first binding of `n` at or after position `i` replaced by
/// `v`; unchanged if there is none. The binding keeps its position.
pub open spec fn frame_update_from(f: FrameV, n: Seq<char>, v: ValueV, i: int) -> FrameV
    decreases f.len() - i,
{
    if i < 0 || i >= f.len() {
        f
    } else if f[i].0 == n {
        f.update(i, (n, v))
    } else {
        frame_update_from(f, n, v, i + 1)
    }
}

/// `f` with its binding of `n` replaced by `v`.
pub open spec fn frame_update(f: FrameV, n: Seq<char>, v: ValueV) -> FrameV {
    frame_update_from(f, n, v, 0)
}

/// The value of `n` in the innermost frame at or below index `j` that binds
/// it: frames are scanned from the current one outward.
pub open spec fn env_lookup_from(env: EnvV, n: Seq<char>, j: int) -> Option<ValueV>
    decreases j + 1,
{
    if j < 0 || j >= env.len() {
        Option::None
    } else {
        match frame_lookup(env[j], n) {
            Option::Some(v) => Option::Some(v),
            Option::None => env_lookup_from(env, n, j - 1),
        }
    }
}

/// The visible value of `n`: the binding in the innermost frame that has one.
pub open spec fn env_lookup(env: EnvV, n: Seq<char>) -> Option<ValueV> {
    env_lookup_from(env, n, env.len() - 1)
}

/// What binding `n` to `v` does to the store: the binding goes into the
/// current frame, unless that frame already binds `n`.
pub open spec fn env_bind(env: EnvV, n: Seq<char>, v: ValueV) -> Result<EnvV, ErrV>
    recommends
        env.len() > 0,
{
    if frame_contains(env.last(), n) {
        Result::Err(ErrV::DuplicateBinding(n))
    } else {
        Result::Ok(env.update(env.len() - 1, env.last().push((n, v))))
    }
}

/// What assigning `v` to `n` does to the frames at or below index `j`: the
/// innermost frame that binds `n` has that binding replaced; enclosing
/// bindings of a shadowed name are never touched.
pub open spec fn env_assign_from(env: EnvV, n: Seq<char>, v: ValueV, j: int) -> Result<
    EnvV,
    ErrV,
>
    decreases j + 1,
{
    if j < 0 || j >= env.len() {
        Result::Err(ErrV::UnknownVariable(n))
    } else if frame_contains(env[j], n) {
        Result::Ok(env.update(j, frame_update(env[j], n, v)))
    } else {
        env_assign_from(env, n, v, j - 1)
    }
}

/// What assigning `v` to `n` does to the store.
pub open spec fn env_assign(env: EnvV, n: Seq<char>, v: ValueV) -> Result<EnvV, ErrV> {
    env_assign_from(env, n, v, env.len() - 1)
}

/// Whether two name slices hold the same characters.
fn str_eq(a: &str, b: &str) -> (r: bool)
    ensures
        r == (a@ == b@),
{
    let sa: String = a.to_string();
    let sb: String = b.to_string();
    sa == sb
}

/// The position of the binding of `name` in one frame, if the frame has one.
fn frame_find(frame: &Vec<(String, Value)>, name: &str) -> (r: Option<usize>)
    ensures
        ({
            let fv = frame_dv(frame@);
            match r {
                Option::Some(i) => i < fv.len() && fv[i as int].0 == name@ && frame_lookup(
                    fv,
                    name@,
                ) == Option::Some(fv[i as int].1) && forall|v: ValueV|
                    #[trigger] frame_update(fv, name@, v) == fv.update(i as int, (name@, v)),
                Option::None => frame_lookup(fv, name@) is None,
            }
        }),
{
    let ghost fv = frame_dv(frame@);
    let n = frame.len();
    for i in 0..n
        invariant
            n == frame@.len(),
            fv == frame_dv(frame@),
            frame_lookup(fv, name@) == frame_lookup_from(fv, name@, i as int),
            forall|v: ValueV|
                #[trigger] frame_update(fv, name@, v) == frame_update_from(
                    fv,
                    name@,
                    v,
                    i as int,
                ),
    {
        if str_eq(frame[i].0.as_str(), name) {
            return Some(i);
        }
    }
    None
}

/// A stack of binding frames; one exists per function activation, and one
/// frame per block being evaluated inside that activation.
pub struct Environment {
    env_stack: Vec<Vec<(String, Value)>>,
}

impl View for Environment {
    type V = EnvV;

    closed spec fn view(&self) -> EnvV {
        env_dv(self.env_stack@)
    }
}

impl Environment {
    /// A fresh store holding a single empty frame.
    pub fn new() -> (r: Environment)
        ensures
            r@ == seq![Seq::<(Seq<char>, ValueV)>::empty()],
    {
        let mut st: Vec<Vec<(String, Value)>> = Vec::new();
        st.push(Vec::new());
        let r = Environment { env_stack: st };
        proof {
            assert(r@ =~~= seq![Seq::<(Seq<char>, ValueV)>::empty()]);
        }
        r
    }

    /// How many frames the store holds.
    pub fn depth(&self) -> (n: usize)
        ensures
            n == self@.len(),
    {
        self.env_stack.len()
    }

    /// Opens a block: appends an empty frame, which becomes current.
    pub fn push(&mut self)
        ensures
            final(self)@ == old(self)@.push(Seq::empty()),
    {
        self.env_stack.push(Vec::new());
        proof {
            assert(final(self)@ =~~= old(self)@.push(Seq::empty()));
        }
    }

    /// Closes a block: removes the current frame and every binding in it.
    /// Every `push` must be paired with exactly one `pop`.
    pub fn pop(&mut self)
        requires
            old(self)@.len() > 0,
        ensures
            final(self)@ == old(self)@.drop_last(),
    {
        let _ = self.env_stack.pop();
        proof {
            assert(final(self)@ =~~= old(self)@.drop_last());
        }
    }

    /// The position of the innermost visible binding of `name`: the frame
    /// index and the position inside that frame.
    fn locate(&self, name: &str) -> (r: Option<(usize, usize)>)
        ensures
            ({
                let env = self@;
                match r {
                    Option::Some(ji) => ji.0 < env.len() && ji.1 < env[ji.0 as int].len()
                        && env[ji.0 as int][ji.1 as int].0 == name@ && env_lookup(env, name@)
                        == Option::Some(env[ji.0 as int][ji.1 as int].1) && forall|v: ValueV|
                        #[trigger] env_assign(env, name@, v) == Result::<EnvV, ErrV>::Ok(
                            env.update(
                                ji.0 as int,
                                env[ji.0 as int].update(ji.1 as int, (name@, v)),
                            ),
                        ),
                    Option::None => env_lookup(env, name@) is None && forall|v: ValueV|
                        #[trigger] env_assign(env, name@, v) == Result::<EnvV, ErrV>::Err(
                            ErrV::UnknownVariable(name@),
                        ),
                }
            }),
    {
        let ghost env = self@;
        let mut j = self.env_stack.len();
        while j > 0
            invariant
                env == self@,
                j <= env.len(),
                env_lookup(env, name@) == env_lookup_from(env, name@, j as int - 1),
                forall|v: ValueV|
                    #[trigger] env_assign(env, name@, v) == env_assign_from(
                        env,
                        name@,
                        v,
                        j as int - 1,
                    ),
            decreases j,
        {
            j = j - 1;
            match frame_find(&self.env_stack[j], name) {
                Option::Some(i) => {
                    return Some((j, i));
                },
                Option::None => {
                },
            }
        }
        None
    }

    /// Binds `name` to `value` in the current frame; fails with
    /// `DuplicateBinding` if the current frame already binds it.
    pub fn bind(&mut self, name: &str, value: Value) -> (r: Result<(), RuntimeError>)
        requires
            old(self)@.len() > 0,
        ensures
            match env_bind(old(self)@, name@, value_dv(value)) {
                Result::Ok(e2) => r is Ok && final(self)@ == e2,
                Result::Err(e) => final(self)@ == old(self)@ && match r {
                    Result::Ok(_) => false,
                    Result::Err(re) => err_dv(re) == e,
                },
            },
    {
        let j = self.env_stack.len() - 1;
        match frame_find(&self.env_stack[j], name) {
            Option::Some(_) => Err(RuntimeError::DuplicateBinding(name.to_string())),
            Option::None => {
                let frame = &mut self.env_stack[j];
                frame.push((name.to_string(), value));
                proof {
                    assert(final(self)@ =~~= old(self)@.update(
                        j as int,
                        old(self)@.last().push((name@, value_dv(value))),
                    ));
                }
                Ok(())
            },
        }
    }

    /// Assigns `value` to `name` in the innermost frame that binds it; fails
    /// with `UnknownVariable` if no frame does. The binding keeps its place
    /// in its frame; shadowed bindings in enclosing frames are untouched.
    pub fn set(&mut self, name: &str, value: Value) -> (r: Result<(), RuntimeError>)
        ensures
            match env_assign(old(self)@, name@, value_dv(value)) {
                Result::Ok(e2) => r is Ok && final(self)@ == e2,
                Result::Err(e) => final(self)@ == old(self)@ && match r {
                    Result::Ok(_) => false,
                    Result::Err(re) => err_dv(re) == e,
                },
            },
    {
        match self.locate(name) {
            Option::Some((j, i)) => {
                let frame = &mut self.env_stack[j];
                frame[i] = (name.to_string(), value);
                proof {
                    assert(final(self)@ =~~= old(self)@.update(
                        j as int,
                        old(self)@[j as int].update(i as int, (name@, value_dv(value))),
                    ));
                }
                Ok(())
            },
            Option::None => Err(RuntimeError::UnknownVariable(name.to_string())),
        }
    }

    /// The value bound to `name` in the innermost frame that binds it, as a
    /// copy; fails with `UnknownVariable` if no frame binds it.
    pub fn get(&self, name: &str) -> (r: Result<Value, RuntimeError>)
        ensures
            match env_lookup(self@, name@) {
                Option::Some(v) => match r {
                    Result::Ok(rv) => value_dv(rv) == v,
                    Result::Err(_) => false,
                },
                Option::None => match r {
                    Result::Ok(_) => false,
                    Result::Err(re) => err_dv(re) == ErrV::UnknownVariable(name@),
                },
            },
    {
        match self.locate(name) {
            Option::Some((j, i)) => Ok(self.env_stack[j][i].1.deep_copy()),
            Option::None => Err(RuntimeError::UnknownVariable(name.to_string())),
        }
    }
}

} // verus!
