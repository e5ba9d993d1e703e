//! The causes of an error.

use vstd::prelude::*;

verus! {

/// One error in the chain that leads from an error to what first caused it.
pub enum Cause<'a> {
    /// An HTTP/2 error.
    H2(&'a ::h2::Error),
    /// An error of any other type.
    Other,
}

/// The first HTTP/2 error in a chain of causes.
pub open spec fn first_h2(causes: Seq<Cause>) -> Option<::h2::Error>
    decreases causes.len(),
{
    if causes.len() == 0 {
        None
    } else {
        match causes[0] {
            Cause::H2(error) => Some(*error),
            Cause::Other => first_h2(causes.drop_first()),
        }
    }
}

/// Finds the first HTTP/2 error in a chain of causes.
pub fn cause_ref<'a>(causes: &[Cause<'a>]) -> (cause: Option<&'a ::h2::Error>)
    ensures
        match cause {
            Some(error) => first_h2(causes@) == Some(*error),
            None => first_h2(causes@) is None,
        },
{
    let mut i: usize = 0;
    assert(causes@.skip(0) =~= causes@);
    while i < causes.len()
        invariant
            i <= causes.len(),
            first_h2(causes@.skip(i as int)) == first_h2(causes@),
        decreases causes.len() - i,
    {
        assert(causes@.skip(i as int).drop_first() =~= causes@.skip(i + 1));
        if let Cause::H2(error) = &causes[i] {
            return Some(*error);
        }
        i += 1;
    }
    None
}

/// The first HTTP/2 error of a chain is one that is in it, with none before it;
/// a chain has none where it holds no HTTP/2 error at all.
pub proof fn law_first_h2(causes: Seq<Cause>)
    ensures
        match first_h2(causes) {
            Some(error) => exists|i: int|
                {
                    &&& 0 <= i < causes.len()
                    &&& (#[trigger] causes[i] matches Cause::H2(found) && *found == error)
                    &&& forall|j: int| 0 <= j < i ==> #[trigger] causes[j] is Other
                },
            None => forall|j: int| 0 <= j < causes.len() ==> #[trigger] causes[j] is Other,
        },
    decreases causes.len(),
{
    if causes.len() > 0 && causes[0] is Other {
        let rest = causes.drop_first();
        law_first_h2(rest);
        assert forall|j: int| 0 < j < causes.len() implies #[trigger] causes[j] == rest[j - 1] by {}
        if let Some(error) = first_h2(causes) {
            let i = choose|i: int|
                {
                    &&& 0 <= i < rest.len()
                    &&& (#[trigger] rest[i] matches Cause::H2(found) && *found == error)
                    &&& forall|j: int| 0 <= j < i ==> #[trigger] rest[j] is Other
                };
            assert(causes[i + 1] matches Cause::H2(found) && *found == error);
        }
    }
}

} // verus!
