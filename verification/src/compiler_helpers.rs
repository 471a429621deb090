//! Compiler generated directives: not part of any library, but known to every module.
use vstd::prelude::*;
use crate::compiler_consts::spec_directive_to_id;
use crate::directives::{DirectiveInline, TypeDirective};
use crate::intern::{
    INTERNED_BIN, INTERNED_HEX, INTERNED_IGNORE, INTERNED_OCTAL, INTERNED_SCIENT, INTERNED_UNICODE,
    INTERNED_WARN,
};

verus! {

/// Number of known directives.
pub const DIRECTIVE_COUNT: usize = 7;

/// Every known directive and its interned name; an entry's position is its `DirectiveId`.
pub open spec fn spec_directives() -> Seq<(u32, DirectiveInline)> {
    seq![
        (INTERNED_WARN, DirectiveInline::Warn),
        (INTERNED_IGNORE, DirectiveInline::Ignore),
        (INTERNED_SCIENT, DirectiveInline::Type(TypeDirective::Scient)),
        (INTERNED_HEX, DirectiveInline::Type(TypeDirective::Hex)),
        (INTERNED_BIN, DirectiveInline::Type(TypeDirective::Bin)),
        (INTERNED_OCTAL, DirectiveInline::Type(TypeDirective::Octal)),
        (INTERNED_UNICODE, DirectiveInline::Type(TypeDirective::Unicode)),
    ]
}

/// Builds the table of known directives.
pub fn directives_dataset() -> (res: Vec<(u32, DirectiveInline)>)
    ensures
        res@ == spec_directives(),
        res.len() == DIRECTIVE_COUNT,
{
    vec![
        (INTERNED_WARN, DirectiveInline::Warn),
        (INTERNED_IGNORE, DirectiveInline::Ignore),
        (INTERNED_SCIENT, DirectiveInline::Type(TypeDirective::Scient)),
        (INTERNED_HEX, DirectiveInline::Type(TypeDirective::Hex)),
        (INTERNED_BIN, DirectiveInline::Type(TypeDirective::Bin)),
        (INTERNED_OCTAL, DirectiveInline::Type(TypeDirective::Octal)),
        (INTERNED_UNICODE, DirectiveInline::Type(TypeDirective::Unicode)),
    ]
}


/// The `DirectiveId` of each known directive is its position in the table, which is where
/// loading puts it.
pub proof fn lemma_directive_id_is_position(k: int)
    requires
        0 <= k < DIRECTIVE_COUNT,
    ensures
        spec_directive_to_id(spec_directives()[k].1) == k,
{
}

} // verus!
