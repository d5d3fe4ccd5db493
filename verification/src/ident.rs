//! Rendering of source names in the target language: names that collide
//! with a reserved word of the target language are emitted with the raw
//! prefix, all others verbatim.

use vstd::prelude::*;
use crate::strfmt::str_eq;

verus! {

/// Whether `s` spells a reserved word of the target language.
pub open spec fn is_reserved_word(s: Seq<char>) -> bool {
    ||| s == "as"@
    ||| s == "break"@
    ||| s == "const"@
    ||| s == "continue"@
    ||| s == "dyn"@
    ||| s == "else"@
    ||| s == "enum"@
    ||| s == "extern"@
    ||| s == "false"@
    ||| s == "fn"@
    ||| s == "for"@
    ||| s == "if"@
    ||| s == "impl"@
    ||| s == "in"@
    ||| s == "let"@
    ||| s == "loop"@
    ||| s == "match"@
    ||| s == "mod"@
    ||| s == "move"@
    ||| s == "mut"@
    ||| s == "pub"@
    ||| s == "ref"@
    ||| s == "return"@
    ||| s == "static"@
    ||| s == "struct"@
    ||| s == "trait"@
    ||| s == "true"@
    ||| s == "type"@
    ||| s == "unsafe"@
    ||| s == "use"@
    ||| s == "where"@
    ||| s == "while"@
    ||| s == "async"@
    ||| s == "await"@
    ||| s == "abstract"@
    ||| s == "become"@
    ||| s == "box"@
    ||| s == "do"@
    ||| s == "final"@
    ||| s == "macro"@
    ||| s == "override"@
    ||| s == "priv"@
    ||| s == "try"@
    ||| s == "typeof"@
    ||| s == "unsized"@
    ||| s == "virtual"@
    ||| s == "yield"@
}

/// How a source name is rendered in the target language: reserved words get
/// the raw prefix, everything else is kept verbatim.
pub open spec fn escaped_ident(s: Seq<char>) -> Seq<char> {
    if is_reserved_word(s) {
        "r#"@ + s
    } else {
        s
    }
}

/// Whether `s` spells a reserved word of the target language.
pub fn is_reserved(s: &str) -> (b: bool)
    ensures
        b == is_reserved_word(s@),
{
    str_eq(s, "as") || str_eq(s, "break") || str_eq(s, "const") || str_eq(s, "continue") || str_eq(
        s,
        "dyn",
    ) || str_eq(s, "else") || str_eq(s, "enum") || str_eq(s, "extern") || str_eq(s, "false")
        || str_eq(s, "fn") || str_eq(s, "for") || str_eq(s, "if") || str_eq(s, "impl") || str_eq(
        s,
        "in",
    ) || str_eq(s, "let") || str_eq(s, "loop") || str_eq(s, "match") || str_eq(s, "mod") || str_eq(
        s,
        "move",
    ) || str_eq(s, "mut") || str_eq(s, "pub") || str_eq(s, "ref") || str_eq(s, "return") || str_eq(
        s,
        "static",
    ) || str_eq(s, "struct") || str_eq(s, "trait") || str_eq(s, "true") || str_eq(s, "type")
        || str_eq(s, "unsafe") || str_eq(s, "use") || str_eq(s, "where") || str_eq(s, "while")
        || str_eq(s, "async") || str_eq(s, "await") || str_eq(s, "abstract") || str_eq(s, "become")
        || str_eq(s, "box") || str_eq(s, "do") || str_eq(s, "final") || str_eq(s, "macro")
        || str_eq(s, "override") || str_eq(s, "priv") || str_eq(s, "try") || str_eq(s, "typeof")
        || str_eq(s, "unsized") || str_eq(s, "virtual") || str_eq(s, "yield")
}

/// Appends the escaped rendering of `s` to `out`.
pub fn push_escaped(out: &mut String, s: &str)
    ensures
        final(out)@ == old(out)@ + escaped_ident(s@),
{
    if is_reserved(s) {
        out.append("r#");
        out.append(s);
    } else {
        out.append(s);
    }
}

/// The escaped rendering of `s`, as an owned string.
pub fn escape_ident(s: &str) -> (r: String)
    ensures
        r@ == escaped_ident(s@),
{
    let mut out = String::new();
    push_escaped(&mut out, s);
    out
}

/// The escaping law: a name that spells a reserved word is rendered with
/// the raw prefix, which changes it and never itself spells a reserved
/// word; any other name is rendered unchanged, so no rendered name ever
/// collides with the reserved-word table.
pub proof fn lemma_escaping(s: Seq<char>)
    ensures
        is_reserved_word(s) ==> escaped_ident(s) == "r#"@ + s && escaped_ident(s) != s,
        !is_reserved_word(s) ==> escaped_ident(s) == s,
        !is_reserved_word(escaped_ident(s)),
{
    reveal_strlit("r#");
    reveal_strlit("as");
    reveal_strlit("break");
    reveal_strlit("const");
    reveal_strlit("continue");
    reveal_strlit("dyn");
    reveal_strlit("else");
    reveal_strlit("enum");
    reveal_strlit("extern");
    reveal_strlit("false");
    reveal_strlit("fn");
    reveal_strlit("for");
    reveal_strlit("if");
    reveal_strlit("impl");
    reveal_strlit("in");
    reveal_strlit("let");
    reveal_strlit("loop");
    reveal_strlit("match");
    reveal_strlit("mod");
    reveal_strlit("move");
    reveal_strlit("mut");
    reveal_strlit("pub");
    reveal_strlit("ref");
    reveal_strlit("return");
    reveal_strlit("static");
    reveal_strlit("struct");
    reveal_strlit("trait");
    reveal_strlit("true");
    reveal_strlit("type");
    reveal_strlit("unsafe");
    reveal_strlit("use");
    reveal_strlit("where");
    reveal_strlit("while");
    reveal_strlit("async");
    reveal_strlit("await");
    reveal_strlit("abstract");
    reveal_strlit("become");
    reveal_strlit("box");
    reveal_strlit("do");
    reveal_strlit("final");
    reveal_strlit("macro");
    reveal_strlit("override");
    reveal_strlit("priv");
    reveal_strlit("try");
    reveal_strlit("typeof");
    reveal_strlit("unsized");
    reveal_strlit("virtual");
    reveal_strlit("yield");
    if is_reserved_word(s) {
        let e = "r#"@ + s;
        assert(e.len() >= 2);
        assert(e[1] == '#');
        assert(e != s);
        assert(!is_reserved_word(e));
    }
}

} // verus!
