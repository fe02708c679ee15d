use vstd::prelude::*;

use crate::resolver::{Currency, PathError};

verus! {

/// Appending two different suffixes to one prefix gives two different
/// sequences.
proof fn lemma_prefix_injective(p: Seq<char>, a: Seq<char>, b: Seq<char>)
    requires
        a != b,
    ensures
        p + a != p + b,
{
    if p + a == p + b {
        assert(a.len() == b.len()) by {
            assert((p + a).len() == (p + b).len());
        }
        assert forall|i: int| 0 <= i < a.len() implies a[i] == b[i] by {
            assert((p + a)[p.len() + i] == a[i]);
            assert((p + b)[p.len() + i] == b[i]);
        }
        assert(a =~= b);
    }
}

/// Accessor/direct-call equivalence: for every configuration and legacy
/// flag, each named accessor resolves exactly the path that direct
/// resolution of its configured file name gives.
pub proof fn lemma_accessor_equals_direct(c: Currency)
    ensures
        c.spec_main_file() == c.resolved(c.config.files.main@),
        c.spec_cache_file() == c.resolved(c.config.files.cache@),
        c.spec_index_file() == c.resolved(c.config.files.index@),
        c.spec_chain_index_file() == c.resolved(c.config.files.chain_index@),
{
}

/// Determinism: any two results that resolution of the same file name on
/// the same resolver admits carry the same path string, or the same error.
pub proof fn lemma_resolution_deterministic(
    c: Currency,
    name: Seq<char>,
    r1: Result<String, PathError>,
    r2: Result<String, PathError>,
)
    requires
        c.resolution_ok(name, r1),
        c.resolution_ok(name, r2),
    ensures
        (match (r1, r2) {
            (Result::Ok(p1), Result::Ok(p2)) => p1@ == p2@,
            (Result::Err(e1), Result::Err(e2)) => e1 == e2,
            _ => false,
        }),
{
}

/// Layout difference: two resolvers for the same configuration over the
/// same well-formed Unix-like environment, one legacy and one standard,
/// resolve different main-file paths whenever their base directories (the
/// home directory and the data directory) differ.
pub proof fn lemma_legacy_standard_differ(c_legacy: Currency, c_standard: Currency)
    requires
        c_legacy.config == c_standard.config,
        c_legacy.env == c_standard.env,
        c_legacy.is_home_dir,
        !c_standard.is_home_dir,
        c_legacy.env.wf(),
        c_legacy.env.unix_like,
        c_legacy.base_dir() is Some,
        c_standard.base_dir() is Some,
        c_legacy.base_dir() != c_standard.base_dir(),
    ensures
        c_legacy.spec_main_file() != c_standard.spec_main_file(),
{
    let h = c_legacy.base_dir()->Some_0;
    let d = c_standard.base_dir()->Some_0;
    let s = c_legacy.env.separator@;
    let coin = c_legacy.config.coin_name@;
    let f = c_legacy.config.files.main@;
    let l = c_legacy.spec_main_file();
    let st = c_standard.spec_main_file();
    assert(s == seq!['/']);
    if l == st {
        assert(l.len() == h.len() + coin.len() + f.len() + 3);
        assert(st.len() == d.len() + coin.len() + f.len() + 2);
        assert(d.len() == h.len() + 1);
        let i = h.len() as int;
        assert(l[i + 1] == '.');
        assert(st[i + 1] == s[0]);
        assert(false);
    }
}

/// Distinct file names resolve to distinct paths: all four accessors share
/// the directory prefix and differ only in the final segment, so four
/// pairwise-distinct configured file names resolve to four pairwise-distinct
/// paths.
pub proof fn lemma_accessors_distinct(c: Currency)
    requires
        c.base_dir() is Some,
        c.config.files.main@ != c.config.files.cache@,
        c.config.files.main@ != c.config.files.index@,
        c.config.files.main@ != c.config.files.chain_index@,
        c.config.files.cache@ != c.config.files.index@,
        c.config.files.cache@ != c.config.files.chain_index@,
        c.config.files.index@ != c.config.files.chain_index@,
    ensures
        c.spec_main_file() == c.dir_prefix() + c.config.files.main@,
        c.spec_cache_file() == c.dir_prefix() + c.config.files.cache@,
        c.spec_index_file() == c.dir_prefix() + c.config.files.index@,
        c.spec_chain_index_file() == c.dir_prefix() + c.config.files.chain_index@,
        c.spec_main_file() != c.spec_cache_file(),
        c.spec_main_file() != c.spec_index_file(),
        c.spec_main_file() != c.spec_chain_index_file(),
        c.spec_cache_file() != c.spec_index_file(),
        c.spec_cache_file() != c.spec_chain_index_file(),
        c.spec_index_file() != c.spec_chain_index_file(),
{
    lemma_prefix_injective(c.dir_prefix(), c.config.files.main@, c.config.files.cache@);
    lemma_prefix_injective(c.dir_prefix(), c.config.files.main@, c.config.files.index@);
    lemma_prefix_injective(c.dir_prefix(), c.config.files.main@, c.config.files.chain_index@);
    lemma_prefix_injective(c.dir_prefix(), c.config.files.cache@, c.config.files.index@);
    lemma_prefix_injective(c.dir_prefix(), c.config.files.cache@, c.config.files.chain_index@);
    lemma_prefix_injective(c.dir_prefix(), c.config.files.index@, c.config.files.chain_index@);
}

} // verus!
