//! Names of the object system's items, and the text helpers that the code
//! generator shares.
use vstd::prelude::*;
use vstd::string::*;
use crate::ast;
use crate::gen::signatures::{path_string, path_text};

verus! {

/// Whether two strings hold the same characters.
pub fn str_eq(a: &str, b: &str) -> (r: bool)
    ensures
        r == (a@ == b@),
{
    let n = a.unicode_len();
    if n != b.unicode_len() {
        return false;
    }
    let mut i: usize = 0;
    while i < n
        invariant
            n == a@.len(),
            n == b@.len(),
            i <= n,
            forall|k: int| 0 <= k < i ==> a@[k] == b@[k],
        decreases n - i,
    {
        if a.get_char(i) != b.get_char(i) {
            return false;
        }
        i += 1;
    }
    proof {
        assert(a@ =~= b@);
    }
    true
}

/// Whether `c` has the Unicode `Uppercase` property, as `char::is_uppercase` says.
pub uninterp spec fn upper_of(c: char) -> bool;

/// The lowercase mapping of `s` that `str::to_lowercase` gives.
pub uninterp spec fn lower_of(s: Seq<char>) -> Seq<char>;

/// Relies on `char::is_uppercase`: the answer depends on the character alone.
#[verifier::external_body]
fn is_uppercase(c: char) -> (r: bool)
    ensures
        r == upper_of(c),
{
    c.is_uppercase()
}

/// Relies on `str::to_lowercase`: the result depends on the characters alone.
#[verifier::external_body]
fn to_lowercase(s: &str) -> (r: String)
    ensures
        r@ == lower_of(s@),
{
    s.to_lowercase()
}

/// Where the word that is being scanned at `j` ends, in a name of `n`
/// characters whose uppercase ones `upper` marks: at the first uppercase
/// character after one that is not. The word's first character is never
/// looked at; `seen` says whether one that is not uppercase was passed.
pub open spec fn word_end(upper: Seq<bool>, n: int, j: int, seen: bool) -> int
    decreases n - j,
{
    if j >= n {
        n
    } else if seen && upper[j] {
        j
    } else {
        word_end(upper, n, j + 1, seen || !upper[j])
    }
}

proof fn lemma_word_end_bounds(upper: Seq<bool>, n: int, j: int, seen: bool)
    requires
        j <= n,
    ensures
        j <= word_end(upper, n, j, seen) <= n,
    decreases n - j,
{
    if j < n && !(seen && upper[j]) {
        lemma_word_end_bounds(upper, n, j + 1, seen || !upper[j]);
    }
}

/// The words of `s` from index `start` on, where `upper` marks the uppercase
/// characters. A word starts at the beginning and at each uppercase
/// character that follows one that is not uppercase within the same word; a
/// run of capitals stays in one word.
pub open spec fn words_from(s: Seq<char>, upper: Seq<bool>, start: int) -> Seq<Seq<char>>
    decreases s.len() - start,
    via words_from_decreases
{
    if start < 0 || start >= s.len() {
        Seq::empty()
    } else {
        let k = word_end(upper, s.len() as int, start + 1, false);
        seq![s.subrange(start, k)] + words_from(s, upper, k)
    }
}

#[via_fn]
proof fn words_from_decreases(s: Seq<char>, upper: Seq<bool>, start: int) {
    if 0 <= start < s.len() {
        lemma_word_end_bounds(upper, s.len() as int, start + 1, false);
    }
}

/// Which characters of `s` are uppercase.
pub open spec fn upper_flags(s: Seq<char>) -> Seq<bool> {
    Seq::new(s.len(), |i: int| upper_of(s[i]))
}

/// `parts` joined with `sep` between each two.
pub open spec fn join_with(parts: Seq<Seq<char>>, sep: Seq<char>) -> Seq<char>
    decreases parts.len(),
{
    if parts.len() == 0 {
        Seq::empty()
    } else if parts.len() == 1 {
        parts[0]
    } else {
        join_with(parts.drop_last(), sep) + sep + parts.last()
    }
}

/// The snake-case form of a class name: its words, each lowercased, joined by `_`.
pub open spec fn snake_name(s: Seq<char>) -> Seq<char> {
    join_with(words_from(s, upper_flags(s), 0).map_values(|w: Seq<char>| lower_of(w)), "_"@)
}

/// Joins `parts` with `sep` between each two.
pub fn join(parts: &Vec<String>, sep: &str) -> (r: String)
    ensures
        r@ == join_with(parts@.map_values(|p: String| p@), sep@),
{
    let ghost ps = parts@.map_values(|p: String| p@);
    let mut r = String::new();
    let mut i: usize = 0;
    while i < parts.len()
        invariant
            ps == parts@.map_values(|p: String| p@),
            i <= parts@.len(),
            r@ == join_with(ps.subrange(0, i as int), sep@),
        decreases parts.len() - i,
    {
        proof {
            assert(ps.subrange(0, i + 1).drop_last() =~= ps.subrange(0, i as int));
        }
        if i > 0 {
            r.append(sep);
        } else {
            proof {
                assert(r@ =~= Seq::<char>::empty());
            }
        }
        r.append(parts[i].as_str());
        proof {
            if i == 0 {
                assert(r@ =~= ps.subrange(0, 1)[0]);
            }
        }
        i += 1;
    }
    proof {
        assert(ps.subrange(0, i as int) =~= ps);
    }
    r
}

/// Splits `name` into its words, where `upper` marks its uppercase characters.
pub fn split_words(name: &str, upper: &Vec<bool>) -> (r: Vec<String>)
    requires
        upper@.len() == name@.len(),
    ensures
        r@.map_values(|p: String| p@) == words_from(name@, upper@, 0),
{
    let ghost s = name@;
    let ghost all = words_from(s, upper@, 0);
    let n = name.unicode_len();
    let mut parts: Vec<String> = Vec::new();
    if n == 0 {
        proof {
            assert(parts@.map_values(|p: String| p@) =~= all);
        }
        return parts;
    }
    let mut start: usize = 0;
    let mut i: usize = 1;
    let mut seen = false;
    while i < n
        invariant
            n == s.len(),
            s == name@,
            upper@.len() == n,
            all == words_from(s, upper@, 0),
            start < i <= n,
            word_end(upper@, n as int, start as int + 1, false) == word_end(upper@, n as int, i as int, seen),
            parts@.map_values(|p: String| p@) + words_from(s, upper@, start as int) == all,
        decreases n - i,
    {
        if seen && upper[i] {
            let part = String::from_str(name.substring_char(start, i));
            let ghost before = parts@.map_values(|p: String| p@);
            let ghost pv = part@;
            proof {
                assert(words_from(s, upper@, start as int) == seq![pv] + words_from(s, upper@, i as int));
                assert(before.push(pv) + words_from(s, upper@, i as int)
                    =~= before + words_from(s, upper@, start as int));
            }
            parts.push(part);
            proof {
                assert(parts@.map_values(|p: String| p@) =~= before.push(pv));
            }
            start = i;
            seen = false;
        } else {
            seen = seen || !upper[i];
        }
        i += 1;
    }
    let part = String::from_str(name.substring_char(start, n));
    let ghost before = parts@.map_values(|p: String| p@);
    let ghost pv = part@;
    proof {
        assert(word_end(upper@, n as int, n as int, seen) == n);
        assert(words_from(s, upper@, n as int) =~= Seq::<Seq<char>>::empty());
        assert(words_from(s, upper@, start as int) =~= seq![pv]);
        assert(before.push(pv) =~= before + words_from(s, upper@, start as int));
    }
    parts.push(part);
    proof {
        assert(parts@.map_values(|p: String| p@) =~= before.push(pv));
    }
    parts
}

/// The snake-case name of a class, used as the prefix of its exported functions:
/// `GtkRBTree` becomes `gtk_rbtree`.
pub fn lower_case_instance_name(instance_name: &str) -> (r: String)
    ensures
        r@ == snake_name(instance_name@),
{
    let ghost s = instance_name@;
    let n = instance_name.unicode_len();
    let mut upper: Vec<bool> = Vec::new();
    let mut i: usize = 0;
    while i < n
        invariant
            n == s.len(),
            s == instance_name@,
            i <= n,
            upper@ =~= upper_flags(s).subrange(0, i as int),
        decreases n - i,
    {
        upper.push(is_uppercase(instance_name.get_char(i)));
        i += 1;
    }
    proof {
        assert(upper@ =~= upper_flags(s));
    }
    let words = split_words(instance_name, &upper);
    let ghost ws = words_from(s, upper_flags(s), 0);
    let mut lowered: Vec<String> = Vec::new();
    let mut k: usize = 0;
    while k < words.len()
        invariant
            words@.map_values(|p: String| p@) == ws,
            k <= words@.len(),
            lowered@.map_values(|p: String| p@) =~= ws.subrange(0, k as int).map_values(|w: Seq<char>| lower_of(w)),
        decreases words.len() - k,
    {
        let ghost before = lowered@.map_values(|p: String| p@);
        let l = to_lowercase(words[k].as_str());
        proof {
            assert(words@[k as int]@ == ws[k as int]);
        }
        lowered.push(l);
        proof {
            assert(ws.subrange(0, k + 1).map_values(|w: Seq<char>| lower_of(w))
                =~= ws.subrange(0, k as int).map_values(|w: Seq<char>| lower_of(w)).push(lower_of(ws[k as int])));
        }
        k += 1;
    }
    proof {
        assert(ws.subrange(0, k as int) =~= ws);
    }
    join(&lowered, "_")
}

/// The decimal digit `d`.
pub open spec fn digit_text(d: nat) -> Seq<char> {
    if d == 0 {
        "0"@
    } else if d == 1 {
        "1"@
    } else if d == 2 {
        "2"@
    } else if d == 3 {
        "3"@
    } else if d == 4 {
        "4"@
    } else if d == 5 {
        "5"@
    } else if d == 6 {
        "6"@
    } else if d == 7 {
        "7"@
    } else if d == 8 {
        "8"@
    } else {
        "9"@
    }
}

/// The decimal numeral of `n`.
pub open spec fn decimal_text(n: nat) -> Seq<char>
    decreases n,
{
    if n < 10 {
        digit_text(n)
    } else {
        decimal_text(n / 10) + digit_text(n % 10)
    }
}

fn digit(d: u64) -> (r: &'static str)
    requires
        d < 10,
    ensures
        r@ == digit_text(d as nat),
{
    if d == 0 {
        "0"
    } else if d == 1 {
        "1"
    } else if d == 2 {
        "2"
    } else if d == 3 {
        "3"
    } else if d == 4 {
        "4"
    } else if d == 5 {
        "5"
    } else if d == 6 {
        "6"
    } else if d == 7 {
        "7"
    } else if d == 8 {
        "8"
    } else {
        "9"
    }
}

/// The decimal numeral of `n`, as it stands in generated source.
pub fn decimal(n: u64) -> (r: String)
    ensures
        r@ == decimal_text(n as nat),
    decreases n,
{
    if n < 10 {
        String::from_str(digit(n))
    } else {
        let mut s = decimal(n / 10);
        s.append(digit(n % 10));
        s
    }
}

/// The statement that opens every callback of the generated code.
pub open spec fn guard_text() -> Seq<char> {
    "#[allow(deprecated)]\nlet _guard = glib::CallbackGuard::new();\n"@
}

pub fn glib_callback_guard() -> (r: String)
    ensures
        r@ == guard_text(),
{
    String::from_str("#[allow(deprecated)]\nlet _guard = glib::CallbackGuard::new();\n")
}

fn lowers_to(name: &str, expected: &str) -> (r: bool)
    ensures
        r == (snake_name(name@) == expected@),
{
    let got = lower_case_instance_name(name);
    str_eq(got.as_str(), expected)
}

/// Checks the snake-case names of fixed class names: simple ones, ones with
/// letters outside ASCII, and ones with runs of capitals.
pub fn run() -> (r: bool)
    ensures
        r == (snake_name("Foo"@) == "foo"@
            && snake_name("SnakeCaseSlidingThroughTheGrass"@) == "snake_case_sliding_through_the_grass"@
            && snake_name(""@) == ""@
            && snake_name("ifyoureallywantto"@) == "ifyoureallywantto"@
            && snake_name("if_you_really_want_to"@) == "if_you_really_want_to"@
            && snake_name("Y\u{306}es"@) == "y\u{306}es"@
            && snake_name("TryingThisY\u{306}esY\u{306}es"@) == "trying_this_y\u{306}es_y\u{306}es"@
            && snake_name("Y\u{306}esY\u{306}esTryingThis"@) == "y\u{306}es_y\u{306}es_trying_this"@
            && snake_name("GtkRBTree"@) == "gtk_rbtree"@
            && snake_name("RBTreeInternals"@) == "rbtree_internals"@
            && snake_name("GTKRBTree"@) == "gtkrbtree"@
            && snake_name("THISISATERRIBLECLASSNAME"@) == "thisisaterribleclassname"@),
{
    lowers_to("Foo", "foo")
        && lowers_to("SnakeCaseSlidingThroughTheGrass", "snake_case_sliding_through_the_grass")
        && lowers_to("", "")
        && lowers_to("ifyoureallywantto", "ifyoureallywantto")
        && lowers_to("if_you_really_want_to", "if_you_really_want_to")
        && lowers_to("Y\u{306}es", "y\u{306}es")
        && lowers_to("TryingThisY\u{306}esY\u{306}es", "trying_this_y\u{306}es_y\u{306}es")
        && lowers_to("Y\u{306}esY\u{306}esTryingThis", "y\u{306}es_y\u{306}es_trying_this")
        && lowers_to("GtkRBTree", "gtk_rbtree")
        && lowers_to("RBTreeInternals", "rbtree_internals")
        && lowers_to("GTKRBTree", "gtkrbtree")
        && lowers_to("THISISATERRIBLECLASSNAME", "thisisaterribleclassname")
}

/// The source text of the parent type named by `extends`: the root object
/// type where there is none.
pub open spec fn parent_type_text(extends: Option<&ast::Path>) -> Seq<char> {
    match extends {
        Some(p) => path_text(p),
        None => "glib::Object"@,
    }
}

/// The source text of the parent type named by `extends`.
pub fn parent_type_string(extends: Option<&ast::Path>) -> (r: String)
    ensures
        r@ == parent_type_text(extends),
{
    match extends {
        Some(p) => path_string(p),
        None => String::from_str("glib::Object"),
    }
}

/// The root object type.
#[allow(non_snake_case)]
pub fn tokens_GObject() -> (r: String)
    ensures
        r@ == "glib::Object"@,
{
    String::from_str("glib::Object")
}

/// The instance struct of the root object type.
#[allow(non_snake_case)]
pub fn tokens_GObjectFfi() -> (r: String)
    ensures
        r@ == "gobject_ffi::GObject"@,
{
    String::from_str("gobject_ffi::GObject")
}

/// The class struct of the root object type.
#[allow(non_snake_case)]
pub fn tokens_GObjectClassFfi() -> (r: String)
    ensures
        r@ == "gobject_ffi::GObjectClass"@,
{
    String::from_str("gobject_ffi::GObjectClass")
}

pub open spec fn class_extends(class: &ast::Class) -> Option<&ast::Path> {
    match &class.extends {
        Some(p) => Some(p),
        None => None,
    }
}

/// The parent type of a class declaration.
#[allow(non_snake_case)]
pub fn tokens_ParentInstance(class: &ast::Class) -> (r: String)
    ensures
        r@ == parent_type_text(class_extends(class)),
{
    parent_type_string(class.extends.as_ref())
}

/// The instance struct of the parent type of a class declaration.
#[allow(non_snake_case)]
pub fn tokens_ParentInstanceFfi(class: &ast::Class) -> (r: String)
    ensures
        r@ == "<"@ + parent_type_text(class_extends(class)) + " as glib::wrapper::Wrapper>::GlibType"@,
{
    let mut r = String::from_str("<");
    let parent = tokens_ParentInstance(class);
    r.append(parent.as_str());
    r.append(" as glib::wrapper::Wrapper>::GlibType");
    r
}

/// The class struct of the parent type of a class declaration.
#[allow(non_snake_case)]
pub fn tokens_ParentClassFfi(class: &ast::Class) -> (r: String)
    ensures
        r@ == "<"@ + parent_type_text(class_extends(class)) + " as glib::wrapper::Wrapper>::GlibClassType"@,
{
    let mut r = String::from_str("<");
    let parent = tokens_ParentInstance(class);
    r.append(parent.as_str());
    r.append(" as glib::wrapper::Wrapper>::GlibClassType");
    r
}

} // verus!
