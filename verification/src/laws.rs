//! Laws of the generation pipeline, stated and proved over the parser's and
//! resolvers' mathematical models.

use vstd::prelude::*;

use crate::{
    CodeGenV, GeneratedV, ParamsV, apply_entry, entry_supported, spec_default_params,
    spec_generate, spec_parse, spec_parse_from, spec_pipeline,
};
use crate::decl::TypeDeclV;
use crate::entry::{EntryV, entry_key};
use crate::error::ConfigErrorV;
use crate::symbol;

verus! {

/// Folding a concatenation folds the first part, then the second from
/// wherever the first ended; an error in the first part is final.
proof fn lemma_parse_from_concat(p: ParamsV, a: Seq<EntryV>, b: Seq<EntryV>)
    ensures
        spec_parse_from(p, a + b) == match spec_parse_from(p, a) {
            Ok(q) => spec_parse_from(q, b),
            Err(e) => Err::<ParamsV, ConfigErrorV>(e),
        },
    decreases a.len(),
{
    if a.len() == 0 {
        assert(a + b =~= b);
    } else {
        assert((a + b)[0] == a[0]);
        match apply_entry(p, a[0]) {
            Ok(p2) => {
                assert((a + b).drop_first() =~= a.drop_first() + b);
                lemma_parse_from_concat(p2, a.drop_first(), b);
            }
            Err(_) => {
            }
        }
    }
}

/// An entry with an unrecognized key, or with a shape its key does not
/// support, makes parsing fail; and where no earlier entry failed, it fails
/// with the unsupported-argument error naming that entry's key.
pub proof fn lemma_unsupported_argument_rejected(entries: Seq<EntryV>, i: int)
    requires
        0 <= i < entries.len(),
        !entry_supported(entries[i]),
    ensures
        spec_parse(entries) is Err,
        spec_parse(entries.take(i)) matches Ok(q) ==> spec_parse(entries) == Err::<
            ParamsV,
            ConfigErrorV,
        >(ConfigErrorV::UnsupportedArgument(entry_key(entries[i]))),
{
    assert(entries.take(i) + entries.skip(i) =~= entries);
    lemma_parse_from_concat(spec_default_params(), entries.take(i), entries.skip(i));
    match spec_parse_from(spec_default_params(), entries.take(i)) {
        Ok(q) => {
            assert(entries.skip(i)[0] == entries[i]);
            assert(apply_entry(q, entries[i]) == Err::<ParamsV, ConfigErrorV>(
                ConfigErrorV::UnsupportedArgument(entry_key(entries[i])),
            ));
        }
        Err(_) => {
        }
    }
}

/// Whether an entry sets the validator slot, by value or bare.
pub open spec fn sets_validator(e: EntryV) -> bool {
    match e {
        EntryV::NameValue(k, _) => k == symbol::validator_key(),
        EntryV::List(_, _) => false,
        EntryV::Bare(k) => k == symbol::validator_key(),
    }
}

/// A validator slot once set never returns to unset while the fold
/// succeeds.
proof fn lemma_validator_stays_set(p: ParamsV, entries: Seq<EntryV>)
    requires
        !(p.check_mode.validator is Unset),
    ensures
        spec_parse_from(p, entries) matches Ok(q) ==> !(q.check_mode.validator is Unset),
    decreases entries.len(),
{
    if entries.len() > 0 {
        match apply_entry(p, entries[0]) {
            Ok(p2) => {
                assert(!(p2.check_mode.validator is Unset));
                lemma_validator_stays_set(p2, entries.drop_first());
            }
            Err(_) => {
            }
        }
    }
}

/// Setting the validator twice — by value or bare, in any combination —
/// makes parsing fail; and where no entry before the second setting failed,
/// it fails with the conflict error naming the validator key.
pub proof fn lemma_duplicate_validator_rejected(entries: Seq<EntryV>, i: int, j: int)
    requires
        0 <= i < j < entries.len(),
        sets_validator(entries[i]),
        sets_validator(entries[j]),
    ensures
        spec_parse(entries) is Err,
        spec_parse(entries.take(j)) matches Ok(q) ==> spec_parse(entries) == Err::<
            ParamsV,
            ConfigErrorV,
        >(ConfigErrorV::DuplicateOption("validator"@)),
{
    reveal_strlit("ref");
    reveal_strlit("validator");
    reveal_strlit("serde");
    assert("validator"@.len() == 9);
    assert("ref"@.len() == 3);
    assert("serde"@.len() == 5);
    assert("validator"@ != "ref"@ && "validator"@ != "serde"@);
    assert(entries.take(j) + entries.skip(j) =~= entries);
    lemma_parse_from_concat(spec_default_params(), entries.take(j), entries.skip(j));
    match spec_parse_from(spec_default_params(), entries.take(j)) {
        Ok(q) => {
            // Within the prefix, split once more around the first setting.
            assert(entries.take(i) + seq![entries[i]] + entries.subrange(i + 1, j) =~= entries.take(
                j,
            ));
            lemma_parse_from_concat(
                spec_default_params(),
                entries.take(i) + seq![entries[i]],
                entries.subrange(i + 1, j),
            );
            lemma_parse_from_concat(spec_default_params(), entries.take(i), seq![entries[i]]);
            match spec_parse_from(spec_default_params(), entries.take(i)) {
                Ok(q0) => {
                    assert(seq![entries[i]][0] == entries[i]);
                    assert(seq![entries[i]].drop_first() =~= Seq::<EntryV>::empty());
                    match apply_entry(q0, entries[i]) {
                        Ok(q1) => {
                            assert(!(q1.check_mode.validator is Unset));
                            assert(spec_parse_from(q1, seq![entries[i]].drop_first()) == Ok::<
                                ParamsV,
                                ConfigErrorV,
                            >(q1));
                            assert(spec_parse_from(q0, seq![entries[i]]) == Ok::<
                                ParamsV,
                                ConfigErrorV,
                            >(q1));
                            assert(spec_parse_from(q1, entries.subrange(i + 1, j)) == Ok::<
                                ParamsV,
                                ConfigErrorV,
                            >(q));
                            lemma_validator_stays_set(q1, entries.subrange(i + 1, j));
                            assert(!(q.check_mode.validator is Unset));
                            assert(entries.skip(j)[0] == entries[j]);
                            assert(apply_entry(q, entries[j]) == Err::<ParamsV, ConfigErrorV>(
                                ConfigErrorV::DuplicateOption("validator"@),
                            ));
                        }
                        Err(_) => {
                        }
                    }
                }
                Err(_) => {
                }
            }
        }
        Err(_) => {
        }
    }
}

/// Generation is a function of the declaration and the configuration alone:
/// two runs on the same input yield the same output bundles.
pub proof fn lemma_generation_deterministic(
    entries: Seq<EntryV>,
    d: TypeDeclV,
    r1: Result<GeneratedV, ConfigErrorV>,
    r2: Result<GeneratedV, ConfigErrorV>,
)
    requires
        r1 == spec_pipeline(entries, d),
        r2 == spec_pipeline(entries, d),
    ensures
        r1 == r2,
{
}

/// The two emitted bundles never diverge: they share the check mode, the
/// wrapped field and the capability policy, and each names the other half
/// for the cross-type conversions.
pub proof fn lemma_bundles_agree(cg: CodeGenV)
    ensures
        spec_generate(cg).owned.check_mode == spec_generate(cg).borrowed.check_mode,
        spec_generate(cg).owned.field == spec_generate(cg).borrowed.field,
        spec_generate(cg).owned.impls == spec_generate(cg).borrowed.impls,
        spec_generate(cg).owned.ty == spec_generate(cg).borrowed.owned_ty,
        spec_generate(cg).owned.ref_ty == spec_generate(cg).borrowed.ty,
        spec_generate(cg).borrowed.ident == spec_generate(cg).borrowed.ty,
{
}

} // verus!

