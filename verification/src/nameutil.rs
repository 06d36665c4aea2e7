//! Keyword mangling for generated parameter names: a reserved identifier is
//! given a trailing underscore so it stays usable in emitted source.

use vstd::prelude::*;
use vstd::string::StringExecFns;
use crate::strutil::str_eq;

verus! {

/// `s` spells a reserved identifier of the target language.
pub open spec fn spec_is_keyword(s: Seq<char>) -> bool {
    ||| s == "abstract"@
    ||| s == "as"@
    ||| s == "async"@
    ||| s == "await"@
    ||| s == "become"@
    ||| s == "box"@
    ||| s == "break"@
    ||| s == "const"@
    ||| s == "continue"@
    ||| s == "crate"@
    ||| s == "do"@
    ||| s == "dyn"@
    ||| s == "else"@
    ||| s == "enum"@
    ||| s == "extern"@
    ||| s == "false"@
    ||| s == "final"@
    ||| s == "fn"@
    ||| s == "for"@
    ||| s == "if"@
    ||| s == "impl"@
    ||| s == "in"@
    ||| s == "let"@
    ||| s == "loop"@
    ||| s == "macro"@
    ||| s == "match"@
    ||| s == "mod"@
    ||| s == "move"@
    ||| s == "mut"@
    ||| s == "override"@
    ||| s == "priv"@
    ||| s == "pub"@
    ||| s == "ref"@
    ||| s == "return"@
    ||| s == "self"@
    ||| s == "Self"@
    ||| s == "static"@
    ||| s == "struct"@
    ||| s == "super"@
    ||| s == "trait"@
    ||| s == "true"@
    ||| s == "try"@
    ||| s == "type"@
    ||| s == "typeof"@
    ||| s == "unsafe"@
    ||| s == "unsized"@
    ||| s == "use"@
    ||| s == "virtual"@
    ||| s == "where"@
    ||| s == "while"@
    ||| s == "yield"@
}

/// What mangling does to a name: keywords gain a trailing underscore, every
/// other name passes through unchanged.
pub open spec fn spec_mangle(s: Seq<char>) -> Seq<char> {
    if spec_is_keyword(s) {
        s + "_"@
    } else {
        s
    }
}

/// Reserved-identifier test.
pub fn is_keyword(name: &str) -> (r: bool)
    ensures
        r == spec_is_keyword(name@),
{
    if str_eq(name, "abstract") { return true; }
    if str_eq(name, "as") { return true; }
    if str_eq(name, "async") { return true; }
    if str_eq(name, "await") { return true; }
    if str_eq(name, "become") { return true; }
    if str_eq(name, "box") { return true; }
    if str_eq(name, "break") { return true; }
    if str_eq(name, "const") { return true; }
    if str_eq(name, "continue") { return true; }
    if str_eq(name, "crate") { return true; }
    if str_eq(name, "do") { return true; }
    if str_eq(name, "dyn") { return true; }
    if str_eq(name, "else") { return true; }
    if str_eq(name, "enum") { return true; }
    if str_eq(name, "extern") { return true; }
    if str_eq(name, "false") { return true; }
    if str_eq(name, "final") { return true; }
    if str_eq(name, "fn") { return true; }
    if str_eq(name, "for") { return true; }
    if str_eq(name, "if") { return true; }
    if str_eq(name, "impl") { return true; }
    if str_eq(name, "in") { return true; }
    if str_eq(name, "let") { return true; }
    if str_eq(name, "loop") { return true; }
    if str_eq(name, "macro") { return true; }
    if str_eq(name, "match") { return true; }
    if str_eq(name, "mod") { return true; }
    if str_eq(name, "move") { return true; }
    if str_eq(name, "mut") { return true; }
    if str_eq(name, "override") { return true; }
    if str_eq(name, "priv") { return true; }
    if str_eq(name, "pub") { return true; }
    if str_eq(name, "ref") { return true; }
    if str_eq(name, "return") { return true; }
    if str_eq(name, "self") { return true; }
    if str_eq(name, "Self") { return true; }
    if str_eq(name, "static") { return true; }
    if str_eq(name, "struct") { return true; }
    if str_eq(name, "super") { return true; }
    if str_eq(name, "trait") { return true; }
    if str_eq(name, "true") { return true; }
    if str_eq(name, "try") { return true; }
    if str_eq(name, "type") { return true; }
    if str_eq(name, "typeof") { return true; }
    if str_eq(name, "unsafe") { return true; }
    if str_eq(name, "unsized") { return true; }
    if str_eq(name, "use") { return true; }
    if str_eq(name, "virtual") { return true; }
    if str_eq(name, "where") { return true; }
    if str_eq(name, "while") { return true; }
    if str_eq(name, "yield") { return true; }
    false
}

/// Mangle a parameter name so it cannot collide with a reserved identifier.
pub fn mangle_keywords(name: &str) -> (r: String)
    ensures
        r@ == spec_mangle(name@),
{
    if is_keyword(name) {
        let mut mangled = name.to_owned();
        mangled.append("_");
        mangled
    } else {
        name.to_owned()
    }
}

} // verus!
