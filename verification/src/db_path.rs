use vstd::prelude::*;

verus! {

/// The database file looked for in the working directory and each of its
/// ancestors.
pub open spec fn db_file_name() -> Seq<char> {
    ".plandb.db"@
}

/// The first position at which `exists` holds, if any.
pub open spec fn first_existing(exists: Seq<bool>) -> Option<int>
    decreases exists.len(),
{
    if exists.len() == 0 {
        None
    } else if exists[0] {
        Some(0)
    } else {
        match first_existing(exists.drop_first()) {
            Some(i) => Some(i + 1),
            None => None,
        }
    }
}

proof fn lemma_first_existing_skip(exists: Seq<bool>, k: int)
    requires
        0 <= k < exists.len(),
        forall|j: int| 0 <= j < k ==> !exists[j],
    ensures
        first_existing(exists) == (match first_existing(exists.subrange(k, exists.len() as int)) {
            Some(i) => Some(i + k),
            None => None::<int>,
        }),
    decreases k,
{
    if k > 0 {
        assert(exists.drop_first().subrange(k - 1, exists.drop_first().len() as int) =~= exists.subrange(
            k,
            exists.len() as int,
        ));
        lemma_first_existing_skip(exists.drop_first(), k - 1);
    } else {
        assert(exists.subrange(0, exists.len() as int) =~= exists);
    }
}

/// The database path the command line uses by default: the `PLANDB_DB`
/// environment variable when set (`env_path`); otherwise the first of the
/// candidate files — the database file in the working directory, then in
/// each ancestor, nearest first — that exists (`exists[i]` tells whether
/// `candidates[i]` does); otherwise `.plandb.db` in the working directory.
pub fn choose_db_path(env_path: Option<String>, candidates: &[String], exists: &[bool]) -> (r: String)
    requires
        candidates@.len() == exists@.len(),
    ensures
        env_path is Some ==> r@ == env_path->0@,
        env_path is None ==> r@ == match first_existing(exists@) {
            Some(i) => candidates@[i]@,
            None => db_file_name(),
        },
{
    match env_path {
        Some(p) => p,
        None => first_candidate(candidates, exists),
    }
}

fn first_candidate(candidates: &[String], exists: &[bool]) -> (r: String)
    requires
        candidates@.len() == exists@.len(),
    ensures
        r@ == match first_existing(exists@) {
            Some(i) => candidates@[i]@,
            None => db_file_name(),
        },
{
    let mut i: usize = 0;
    while i < exists.len()
        invariant
            i <= exists@.len(),
            candidates@.len() == exists@.len(),
            forall|j: int| 0 <= j < i ==> !exists@[j],
        decreases exists@.len() - i,
    {
        if exists[i] {
            proof {
                lemma_first_existing_skip(exists@, i as int);
            }
            return candidates[i].clone();
        }
        i += 1;
    }
    proof {
        assert forall|k: int| 0 <= k <= exists@.len() implies first_existing(exists@.subrange(
            k,
            exists@.len() as int,
        )) is None by {
            lemma_none_after(exists@, k);
        }
        assert(exists@.subrange(0, exists@.len() as int) =~= exists@);
    }
    ".plandb.db".to_owned()
}

proof fn lemma_none_after(exists: Seq<bool>, k: int)
    requires
        0 <= k <= exists.len(),
        forall|j: int| 0 <= j < exists.len() ==> !exists[j],
    ensures
        first_existing(exists.subrange(k, exists.len() as int)) is None,
    decreases exists.len() - k,
{
    let rest = exists.subrange(k, exists.len() as int);
    if k < exists.len() {
        lemma_none_after(exists, k + 1);
        assert(rest.drop_first() =~= exists.subrange(k + 1, exists.len() as int));
    }
}

} // verus!
