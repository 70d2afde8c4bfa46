use vstd::prelude::*;

verus! {

/// Both values when both outcomes succeeded, else the first failure.
pub fn zip_results2<A, B, E>(a: Result<A, E>, b: Result<B, E>) -> (r: Result<(A, B), E>)
    ensures
        match (a, b) {
            (Ok(x), Ok(y)) => r == Ok::<(A, B), E>((x, y)),
            (Err(e), _) => r == Err::<(A, B), E>(e),
            (Ok(_), Err(e)) => r == Err::<(A, B), E>(e),
        },
{
    match a {
        Err(e) => Err(e),
        Ok(x) => match b {
            Err(e) => Err(e),
            Ok(y) => Ok((x, y)),
        },
    }
}

/// All three values when every outcome succeeded, else the first failure
/// from the left.
pub fn zip_results3<A, B, C, E>(a: Result<A, E>, b: Result<B, E>, c: Result<C, E>) -> (r: Result<
    (A, B, C),
    E,
>)
    ensures
        match (a, b, c) {
            (Ok(x), Ok(y), Ok(z)) => r == Ok::<(A, B, C), E>((x, y, z)),
            (Err(e), _, _) => r == Err::<(A, B, C), E>(e),
            (Ok(_), Err(e), _) => r == Err::<(A, B, C), E>(e),
            (Ok(_), Ok(_), Err(e)) => r == Err::<(A, B, C), E>(e),
        },
{
    match a {
        Err(e) => Err(e),
        Ok(x) => match b {
            Err(e) => Err(e),
            Ok(y) => match c {
                Err(e) => Err(e),
                Ok(z) => Ok((x, y, z)),
            },
        },
    }
}

/// Both values when both are present.
pub fn zip_options2<A, B>(a: Option<A>, b: Option<B>) -> (r: Option<(A, B)>)
    ensures
        match (a, b) {
            (Some(x), Some(y)) => r == Some((x, y)),
            _ => r is None,
        },
{
    match a {
        None => None,
        Some(x) => match b {
            None => None,
            Some(y) => Some((x, y)),
        },
    }
}

/// All three values when every one is present.
pub fn zip_options3<A, B, C>(a: Option<A>, b: Option<B>, c: Option<C>) -> (r: Option<(A, B, C)>)
    ensures
        match (a, b, c) {
            (Some(x), Some(y), Some(z)) => r == Some((x, y, z)),
            _ => r is None,
        },
{
    match a {
        None => None,
        Some(x) => match b {
            None => None,
            Some(y) => match c {
                None => None,
                Some(z) => Some((x, y, z)),
            },
        },
    }
}

} // verus!
