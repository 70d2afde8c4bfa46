use vstd::prelude::*;
use crate::convert::{
    accessor_name, cast_failed, convert, mut_accessor_name, narrowable, narrowed, Kind, MutKind,
    Narrowed,
};
use crate::decode::{FromValue, Zero};
use crate::error::Error;
use crate::path::{path_prefix_text, path_text, Step};
use crate::value::{IndexKey, Mapping, Value};

verus! {

/// The value that `p` leads to from `v`, if every step finds a child.
pub open spec fn resolve(v: Value, p: Seq<Step>) -> Option<Value>
    decreases p.len(),
{
    if p.len() == 0 {
        Some(v)
    } else {
        match v.child(p[0].key()) {
            Some(c) => resolve(c, p.drop_first()),
            None => None,
        }
    }
}

/// How many steps of `p`, from the first, find a child.
pub open spec fn resolved_depth(v: Value, p: Seq<Step>) -> nat
    decreases p.len(),
{
    if p.len() == 0 {
        0
    } else {
        match v.child(p[0].key()) {
            Some(c) => 1 + resolved_depth(c, p.drop_first()),
            None => 0,
        }
    }
}

/// The shortest prefix of `p` that leads nowhere from `v`: the steps that
/// resolved and the first one that did not.
pub open spec fn failing_prefix(v: Value, p: Seq<Step>) -> Seq<Step> {
    p.take(resolved_depth(v, p) as int + 1)
}

/// `after` is `before` with the value that `p` leads to replaced by `sub`,
/// every key, length and other value on the way left as it was.
pub open spec fn rewritten(before: Value, after: Value, p: Seq<Step>, sub: Value) -> bool
    decreases p.len(),
{
    if p.len() == 0 {
        after == sub
    } else {
        match (before.child(p[0].key()), after.child(p[0].key())) {
            (Some(c), Some(c2)) => before.replaced(p[0].key(), after, c2) && rewritten(
                c,
                c2,
                p.drop_first(),
                sub,
            ),
            _ => false,
        }
    }
}

proof fn lemma_skip_unfold(p: Seq<Step>, i: int)
    requires
        0 <= i < p.len(),
    ensures
        p.skip(i)[0] == p[i],
        p.skip(i).drop_first() == p.skip(i + 1),
{
    assert(p.skip(i).drop_first() =~= p.skip(i + 1));
}

/// A path resolves exactly when every one of its steps does.
pub proof fn lemma_resolved_depth(v: Value, p: Seq<Step>)
    ensures
        resolve(v, p) is Some <==> resolved_depth(v, p) == p.len(),
        resolved_depth(v, p) <= p.len(),
    decreases p.len(),
{
    if p.len() > 0 {
        if let Some(c) = v.child(p[0].key()) {
            lemma_resolved_depth(c, p.drop_first());
        }
    }
}

/// Following a path step by step: the value after `p` and one more step `s`
/// is the child under `s` of the value after `p`.
pub proof fn lemma_resolve_push(v: Value, p: Seq<Step>, s: Step)
    ensures
        resolve(v, p.push(s)) == match resolve(v, p) {
            Some(w) => w.child(s.key()),
            None => None,
        },
    decreases p.len(),
{
    let q = p.push(s);
    if p.len() == 0 {
        assert(q.drop_first() =~= Seq::<Step>::empty());
        assert(q[0] == s);
        if let Some(c) = v.child(s.key()) {
            assert(resolve(c, q.drop_first()) == Some(c));
        }
    } else {
        assert(q.drop_first() =~= p.drop_first().push(s));
        assert(q[0] == p[0]);
        if let Some(c) = v.child(p[0].key()) {
            lemma_resolve_push(c, p.drop_first(), s);
        }
    }
}

/// A query reports the shallowest failure: where `p` resolves and `p` with
/// `s` does not, the path `p`, `s`, `rest` fails at the prefix `p`, `s`,
/// whatever `rest` holds.
pub proof fn lemma_shallowest_failure(root: Value, p: Seq<Step>, s: Step, rest: Seq<Step>)
    requires
        resolve(root, p) is Some,
        resolve(root, p.push(s)) is None,
    ensures
        resolve(root, p.push(s) + rest) is None,
        resolved_depth(root, p.push(s) + rest) == p.len(),
        failing_prefix(root, p.push(s) + rest) == p.push(s),
    decreases p.len(),
{
    let q = p.push(s) + rest;
    lemma_resolve_push(root, p, s);
    if p.len() == 0 {
        assert(q[0] == s);
        assert(root.child(s.key()) is None);
        assert(resolved_depth(root, q) == 0);
    } else {
        let c = root.child(p[0].key())->Some_0;
        assert(q[0] == p[0]);
        assert(q.drop_first() =~= p.drop_first().push(s) + rest);
        assert(p.push(s).drop_first() =~= p.drop_first().push(s));
        lemma_resolve_push(c, p.drop_first(), s);
        lemma_shallowest_failure(c, p.drop_first(), s, rest);
    }
    assert(q.take(p.len() as int + 1) =~= p.push(s));
}

/// The empty path leads to the root itself.
pub proof fn lemma_empty_path(root: Value)
    ensures
        resolve(root, Seq::<Step>::empty()) == Some(root),
{
}

/// A position looks into a sequence only and a name into a mapping only: any
/// other pairing finds nothing, which a query reports as a missing value.
pub proof fn lemma_shape_mismatch_not_found(v: Value, name: String, i: usize)
    ensures
        v is Object ==> resolve(v, seq![Step::Index(IndexKey::ByPosition(i))]) is None,
        v is Array ==> resolve(v, seq![Step::Field(name)]) is None,
        v is Array ==> resolve(v, seq![Step::Index(IndexKey::ByName(name))]) is None,
{
}

/// A value written through an exclusive query is what a later query on the
/// same path finds.
pub proof fn lemma_rewrite_visible(before: Value, after: Value, p: Seq<Step>, sub: Value)
    requires
        rewritten(before, after, p, sub),
    ensures
        resolve(after, p) == Some(sub),
    decreases p.len(),
{
    if p.len() > 0 {
        let c = before.child(p[0].key())->Some_0;
        let c2 = after.child(p[0].key())->Some_0;
        lemma_rewrite_visible(c, c2, p.drop_first(), sub);
    }
}

/// Finds the value that `p` leads to from `cur`, starting at step `i`; on
/// failure, the position of the step that found nothing.
fn walk<'a>(cur: &'a Value, p: &[Step], i: usize) -> (r: Result<&'a Value, usize>)
    requires
        i <= p@.len(),
    ensures
        match resolve(*cur, p@.skip(i as int)) {
            Some(v) => r is Ok && *r->Ok_0 == v,
            None => r is Err && r->Err_0 == i + resolved_depth(*cur, p@.skip(i as int)),
        },
    decreases p@.len() - i,
{
    if i == p.len() {
        return Ok(cur);
    }
    proof {
        lemma_skip_unfold(p@, i as int);
    }
    let next = match &p[i] {
        Step::Field(name) => cur.get_by_name(name),
        Step::Index(key) => cur.get(key),
    };
    match next {
        Some(c) => walk(c, p, i + 1),
        None => Err(i),
    }
}

/// Exclusive access to the value that `p` leads to from `cur`, starting at
/// step `i`, where every step finds a child.
fn walk_mut<'a>(cur: &'a mut Value, p: &[Step], i: usize) -> (r: &'a mut Value)
    requires
        i <= p@.len(),
        resolve(*old(cur), p@.skip(i as int)) is Some,
    ensures
        Some(*r) == resolve(*old(cur), p@.skip(i as int)),
        rewritten(*old(cur), *final(cur), p@.skip(i as int), *final(r)),
    decreases p@.len() - i,
{
    if i == p.len() {
        return cur;
    }
    proof {
        lemma_skip_unfold(p@, i as int);
    }
    broadcast use {Value::lemma_replaced_by_name_child, Value::lemma_replaced_at_child};

    let next = match &p[i] {
        Step::Field(name) => cur.get_mut_by_name(name),
        Step::Index(key) => cur.get_mut(key),
    };
    walk_mut(next.unwrap(), p, i + 1)
}

/// Follows `path` from `root` and returns the value found there, or the
/// shortest prefix of the path that leads nowhere. An empty path gives
/// `root` itself.
pub fn evaluate<'a>(root: &'a Value, path: &[Step]) -> (r: Result<&'a Value, Error>)
    ensures
        match resolve(*root, path@) {
            Some(v) => r is Ok && *r->Ok_0 == v,
            None => r is Err && r->Err_0 is ValueNotFoundAtPath
                && r->Err_0->ValueNotFoundAtPath_0@ == path_text(failing_prefix(*root, path@)),
        },
{
    assert(path@.skip(0) =~= path@);
    match walk(root, path, 0) {
        Ok(v) => Ok(v),
        Err(d) => Err(not_found(root, path, d)),
    }
}

/// Exclusive access to the value that `path` leads to from `root`. Writing
/// through the result changes that value in `root` and nothing else; on
/// failure `root` is left as it was.
pub fn evaluate_mut<'a>(root: &'a mut Value, path: &[Step]) -> (r: Result<&'a mut Value, Error>)
    ensures
        match resolve(*old(root), path@) {
            Some(v) => r is Ok && *r->Ok_0 == v && rewritten(
                *old(root),
                *final(root),
                path@,
                *final(r->Ok_0),
            ),
            None => r is Err && r->Err_0 is ValueNotFoundAtPath
                && r->Err_0->ValueNotFoundAtPath_0@ == path_text(failing_prefix(*old(root), path@))
                && *final(root) == *old(root),
        },
{
    assert(path@.skip(0) =~= path@);
    match walk(root, path, 0) {
        Ok(_) => Ok(walk_mut(root, path, 0)),
        Err(d) => Err(not_found(root, path, d)),
    }
}


/// The error that reports `p` as leading nowhere from `root`.
fn not_found(root: &Value, p: &[Step], d: usize) -> (r: Error)
    requires
        resolve(*root, p@) is None,
        d == resolved_depth(*root, p@),
    ensures
        r is ValueNotFoundAtPath && r->ValueNotFoundAtPath_0@ == path_text(
            failing_prefix(*root, p@),
        ),
{
    proof {
        lemma_resolved_depth(*root, p@);
    }
    let n = p.len();
    assert(d < n);
    Error::ValueNotFoundAtPath(path_prefix_text(p, d + 1))
}

/// Follows `path` from `root`, then sees the value found as kind `k`.
pub fn evaluate_and_convert<'a>(root: &'a Value, path: &[Step], k: Kind) -> (r: Result<
    Narrowed<'a>,
    Error,
>)
    ensures
        match resolve(*root, path@) {
            Some(v) => if narrowable(v, k) {
                r is Ok && narrowed(v, k, r->Ok_0)
            } else {
                r is Err && r->Err_0 is AsCastFailed && r->Err_0->AsCastFailed_0@ == accessor_name(
                    k,
                )
            },
            None => r is Err && r->Err_0 is ValueNotFoundAtPath
                && r->Err_0->ValueNotFoundAtPath_0@ == path_text(failing_prefix(*root, path@)),
        },
{
    assert(path@.skip(0) =~= path@);
    match walk(root, path, 0) {
        Ok(v) => convert(v, k),
        Err(d) => Err(not_found(root, path, d)),
    }
}

/// Exclusive access to the mapping that `path` leads to from `root`.
/// Changes made through it are changes to that value in `root`; on failure
/// `root` is left as it was.
pub fn evaluate_as_object_mut<'a>(root: &'a mut Value, path: &[Step]) -> (r: Result<
    &'a mut Mapping,
    Error,
>)
    ensures
        match resolve(*old(root), path@) {
            Some(v) => if v is Object {
                r is Ok && *r->Ok_0 == v->Object_0 && rewritten(
                    *old(root),
                    *final(root),
                    path@,
                    Value::Object(*final(r->Ok_0)),
                )
            } else {
                r is Err && r->Err_0 is AsCastFailed && r->Err_0->AsCastFailed_0@
                    == mut_accessor_name(MutKind::Object) && *final(root) == *old(root)
            },
            None => r is Err && r->Err_0 is ValueNotFoundAtPath
                && r->Err_0->ValueNotFoundAtPath_0@ == path_text(failing_prefix(*old(root), path@))
                && *final(root) == *old(root),
        },
{
    assert(path@.skip(0) =~= path@);
    let found = match walk(root, path, 0) {
        Ok(v) => v.as_object().is_some(),
        Err(d) => {
            return Err(not_found(root, path, d));
        },
    };
    if !found {
        return Err(cast_failed(MutKind::Object.accessor()));
    }
    let target = walk_mut(root, path, 0);
    Ok(target.as_object_mut().unwrap())
}

/// Exclusive access to the elements of the sequence that `path` leads to
/// from `root`. Changes made through it are changes to that value in
/// `root`; on failure `root` is left as it was.
pub fn evaluate_as_array_mut<'a>(root: &'a mut Value, path: &[Step]) -> (r: Result<
    &'a mut Vec<Value>,
    Error,
>)
    ensures
        match resolve(*old(root), path@) {
            Some(v) => if v is Array {
                r is Ok && *r->Ok_0 == v->Array_0 && rewritten(
                    *old(root),
                    *final(root),
                    path@,
                    Value::Array(*final(r->Ok_0)),
                )
            } else {
                r is Err && r->Err_0 is AsCastFailed && r->Err_0->AsCastFailed_0@
                    == mut_accessor_name(MutKind::Array) && *final(root) == *old(root)
            },
            None => r is Err && r->Err_0 is ValueNotFoundAtPath
                && r->Err_0->ValueNotFoundAtPath_0@ == path_text(failing_prefix(*old(root), path@))
                && *final(root) == *old(root),
        },
{
    assert(path@.skip(0) =~= path@);
    let found = match walk(root, path, 0) {
        Ok(v) => v.as_array().is_some(),
        Err(d) => {
            return Err(not_found(root, path, d));
        },
    };
    if !found {
        return Err(cast_failed(MutKind::Array.accessor()));
    }
    let target = walk_mut(root, path, 0);
    Ok(target.as_array_mut().unwrap())
}


/// Follows `path` from `root`, then decodes the value found into `T`. The
/// tree is only read.
pub fn evaluate_and_deserialize<T: FromValue>(root: &Value, path: &[Step]) -> (r: Result<
    T,
    Error,
>)
    ensures
        match resolve(*root, path@) {
            Some(v) => if T::decodable(v) {
                r is Ok && T::decodes(v, r->Ok_0)
            } else {
                r is Err && r->Err_0 is DeserializationFailed
            },
            None => r is Err && r->Err_0 is ValueNotFoundAtPath
                && r->Err_0->ValueNotFoundAtPath_0@ == path_text(failing_prefix(*root, path@)),
        },
{
    assert(path@.skip(0) =~= path@);
    match walk(root, path, 0) {
        Ok(v) => match T::from_value(v) {
            Ok(x) => Ok(x),
            Err(e) => Err(Error::DeserializationFailed(e)),
        },
        Err(d) => Err(not_found(root, path, d)),
    }
}

/// The value of a successful outcome, else `fallback`, whatever the failure.
pub fn apply_fallback<T>(outcome: Result<T, Error>, fallback: T) -> (r: T)
    ensures
        match outcome {
            Ok(x) => r == x,
            Err(_) => r == fallback,
        },
{
    match outcome {
        Ok(x) => x,
        Err(_) => fallback,
    }
}

/// The value of a successful outcome, else the zero of `T`, whatever the
/// failure.
pub fn apply_default<T: Zero>(outcome: Result<T, Error>) -> (r: T)
    ensures
        match outcome {
            Ok(x) => r == x,
            Err(_) => r.is_zero(),
        },
{
    match outcome {
        Ok(x) => x,
        Err(_) => T::zero(),
    }
}

/// Decodes into `T` the value that `path` leads to from `root`; where the
/// path leads nowhere or the value does not decode, gives `fallback`.
pub fn evaluate_with_fallback<T: FromValue>(root: &Value, path: &[Step], fallback: T) -> (r: T)
    ensures
        match resolve(*root, path@) {
            Some(v) => if T::decodable(v) {
                T::decodes(v, r)
            } else {
                r == fallback
            },
            None => r == fallback,
        },
{
    apply_fallback(evaluate_and_deserialize(root, path), fallback)
}

/// Decodes into `T` the value that `path` leads to from `root`; where the
/// path leads nowhere or the value does not decode, gives the zero of `T`.
pub fn evaluate_with_default<T: FromValue + Zero>(root: &Value, path: &[Step]) -> (r: T)
    ensures
        match resolve(*root, path@) {
            Some(v) => if T::decodable(v) {
                T::decodes(v, r)
            } else {
                r.is_zero()
            },
            None => r.is_zero(),
        },
{
    apply_default(evaluate_and_deserialize(root, path))
}

} // verus!
