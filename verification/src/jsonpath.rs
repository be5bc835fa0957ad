//! JSON paths: ordered sequences of key-or-index steps, and their
//! resolution against a JSON value.
//!
//! Resolution is a fold over the steps that returns an `Option`: a missing
//! key, an index out of range or a step applied to the wrong kind of
//! container yields "not found" for the whole path, never an abort.

use vstd::prelude::*;

use crate::jsonval::JsonVal;
use crate::jsonval::obj_lookup;
use crate::jsonval::obj_get;

verus! {

/// One step of a JSON path: descend into an object by key, or into an
/// array by index.
pub enum PathStep {
    ObjectKey(String),
    ArrayIndex(usize),
}

/// The mathematical shape of a path step.
pub ghost enum StepView {
    ObjectKey(Seq<char>),
    ArrayIndex(int),
}

impl View for PathStep {
    type V = StepView;

    open spec fn view(&self) -> StepView {
        match self {
            PathStep::ObjectKey(k) => StepView::ObjectKey(k@),
            PathStep::ArrayIndex(i) => StepView::ArrayIndex(*i as int),
        }
    }
}

/// The views of a sequence of path steps.
pub open spec fn steps_view(path: Seq<PathStep>) -> Seq<StepView> {
    path.map_values(|s: PathStep| s@)
}

/// Apply one step to a value: `None` when the step does not fit the value.
pub open spec fn step_into(v: JsonVal, step: StepView) -> Option<JsonVal> {
    match step {
        StepView::ObjectKey(k) => match v {
            JsonVal::Obj(entries) => obj_lookup(entries@, k),
            _ => None,
        },
        StepView::ArrayIndex(i) => match v {
            JsonVal::Arr(items) => if 0 <= i < items@.len() {
                Some(items@[i])
            } else {
                None
            },
            _ => None,
        },
    }
}

/// Resolve a whole path against a value, step by step from the front.
pub open spec fn resolve(v: JsonVal, path: Seq<StepView>) -> Option<JsonVal>
    decreases path.len(),
{
    if path.len() == 0 {
        Some(v)
    } else {
        match step_into(v, path[0]) {
            Some(w) => resolve(w, path.skip(1)),
            None => None,
        }
    }
}

/// Resolve `path` against `v`, returning the value it leads to, or `None`
/// as soon as any step cannot be taken.
pub fn resolve_path<'a>(v: &'a JsonVal, path: &Vec<PathStep>) -> (r: Option<&'a JsonVal>)
    ensures
        match r {
            Some(w) => resolve(*v, steps_view(path@)) == Some(*w),
            None => resolve(*v, steps_view(path@)) is None,
        },
{
    let ghost sv = steps_view(path@);
    let mut cur: &JsonVal = v;
    let mut i: usize = 0;
    proof {
        assert(sv.skip(0) =~= sv);
    }
    while i < path.len()
        invariant
            i <= path@.len(),
            sv == steps_view(path@),
            sv.len() == path@.len(),
            resolve(*v, sv) == resolve(*cur, sv.skip(i as int)),
        decreases path@.len() - i,
    {
        proof {
            assert(sv.skip(i as int)[0] == sv[i as int]);
            assert(sv.skip(i as int).skip(1) =~= sv.skip(i as int + 1));
            assert(sv[i as int] == path@[i as int]@);
        }
        match &path[i] {
            PathStep::ObjectKey(k) => {
                match cur {
                    JsonVal::Obj(entries) => {
                        match obj_get(entries, k.as_str()) {
                            Some(w) => {
                                cur = w;
                            },
                            None => {
                                return None;
                            },
                        }
                    },
                    _ => {
                        return None;
                    },
                }
            },
            PathStep::ArrayIndex(ix) => {
                match cur {
                    JsonVal::Arr(items) => {
                        if *ix < items.len() {
                            cur = &items[*ix];
                        } else {
                            return None;
                        }
                    },
                    _ => {
                        return None;
                    },
                }
            },
        }
        i += 1;
    }
    proof {
        assert(sv.skip(i as int).len() == 0);
    }
    Some(cur)
}

/// A path that fails at any one of its steps fails as a whole: if the
/// steps before position `k` lead to some value and step `k` cannot be
/// taken from there, the full path resolves to "not found".
pub proof fn lemma_step_failure_propagates(v: JsonVal, path: Seq<StepView>, k: int)
    requires
        0 <= k < path.len(),
        resolve(v, path.take(k)) matches Some(w) && step_into(w, path[k]) is None,
    ensures
        resolve(v, path) is None,
    decreases k,
{
    if k == 0 {
        assert(resolve(v, path.take(0)) == Some(v));
        assert(step_into(v, path[0]) is None);
    } else {
        assert(path.take(k)[0] == path[0]);
        match step_into(v, path.take(k)[0]) {
            Some(w0) => {
                assert(path.take(k).skip(1) =~= path.skip(1).take(k - 1));
                assert(path.skip(1)[k - 1] == path[k]);
                lemma_step_failure_propagates(w0, path.skip(1), k - 1);
            },
            None => {},
        }
    }
}

} // verus!
