use vstd::prelude::*;
use vstd::string::*;

verus! {

/// Whether `c` is an ASCII capital letter.
pub open spec fn is_upper(c: char) -> bool {
    'A' <= c && c <= 'Z'
}

/// The ASCII lower-case form of `c`; any other character is kept.
pub open spec fn lower(c: char) -> char {
    if is_upper(c) {
        ((c as u32) + 32) as char
    } else {
        c
    }
}

/// Snake-case folding: every character is lower-cased, and an underscore is
/// inserted before each capital letter that is not the first character.
pub open spec fn snake(s: Seq<char>) -> Seq<char>
    decreases s.len(),
{
    if s.len() == 0 {
        seq![]
    } else if s.len() > 1 && is_upper(s.last()) {
        snake(s.drop_last()) + seq!['_', lower(s.last())]
    } else {
        snake(s.drop_last()).push(lower(s.last()))
    }
}

/// Whether `s` holds no ASCII capital letter.
pub open spec fn no_upper(s: Seq<char>) -> bool {
    forall|i: int| 0 <= i < s.len() ==> !is_upper(#[trigger] s[i])
}

/// The wire-level route of a method: `/package.service/method`.
pub open spec fn route(package: Seq<char>, service: Seq<char>, method: Seq<char>) -> Seq<char> {
    "/"@ + package + "."@ + service + "/"@ + method
}

/// What `proc_macro2::Literal::string` spells for a text: the text escaped and
/// in double quotes.
pub uninterp spec fn quoted_literal(s: Seq<char>) -> Seq<char>;

/// One emitted documentation line: a `doc` attribute that holds the comment line.
pub open spec fn doc_line(line: Seq<char>) -> Seq<char> {
    "#[doc = "@ + quoted_literal(line) + "]"@
}

/// The documentation lines for a sequence of comment lines, one for one.
pub open spec fn doc_lines(lines: Seq<Seq<char>>) -> Seq<Seq<char>> {
    lines.map_values(|l: Seq<char>| doc_line(l))
}

/// Lines laid out as text, each followed by a newline.
pub open spec fn lines_text(lines: Seq<Seq<char>>) -> Seq<char> {
    lines.map_values(|l: Seq<char>| l + "\n"@).flatten_alt()
}

/// Relies on `String::push`: appends one character.
#[verifier::external_body]
fn push_char(s: &mut String, c: char)
    ensures
        final(s)@ == old(s)@.push(c),
{
    s.push(c)
}

/// Relies on `proc_macro2::Literal::string`: the spelling of a string literal
/// holding `s`, which depends on the text alone.
#[verifier::external_body]
pub(crate) fn string_literal(s: &str) -> (r: String)
    ensures
        r@ == quoted_literal(s@),
{
    proc_macro2::Literal::string(s).to_string()
}

fn lower_char(c: char) -> (r: char)
    ensures
        r == lower(c),
{
    if 'A' <= c && c <= 'Z' {
        ((c as u8) + 32) as char
    } else {
        c
    }
}

/// Folds a declared name into a snake-case source identifier.
pub fn derive_identifier(raw_name: &str) -> (r: String)
    ensures
        r@ == snake(raw_name@),
{
    let n = raw_name.unicode_len();
    let mut out = String::new();
    let mut i: usize = 0;
    while i < n
        invariant
            n == raw_name@.len(),
            i <= n,
            out@ == snake(raw_name@.subrange(0, i as int)),
        decreases n - i,
    {
        let c = raw_name.get_char(i);
        let ghost pre = raw_name@.subrange(0, i as int);
        let ghost next = raw_name@.subrange(0, i as int + 1);
        assert(next.drop_last() =~= pre);
        if i > 0 && 'A' <= c && c <= 'Z' {
            push_char(&mut out, '_');
            assert(out@ == snake(pre).push('_'));
        }
        let l = lower_char(c);
        push_char(&mut out, l);
        i = i + 1;
        assert(out@ =~= snake(next));
    }
    assert(raw_name@.subrange(0, n as int) =~= raw_name@);
    out
}

/// Builds the route `/package.service/method` that a method is dispatched on.
pub fn derive_route(package: &str, service_identifier: &str, method_identifier: &str) -> (r: String)
    requires
        package@.len() > 0,
        service_identifier@.len() > 0,
        method_identifier@.len() > 0,
    ensures
        r@ == route(package@, service_identifier@, method_identifier@),
{
    let mut r = String::from_str("/");
    r.append(package);
    r.append(".");
    r.append(service_identifier);
    r.append("/");
    r.append(method_identifier);
    r
}

/// Maps comment lines onto documentation lines, keeping their order and
/// boundaries; no line is added, merged or dropped.
pub fn propagate_comments(lines: &Vec<String>) -> (r: Vec<String>)
    ensures
        r@.len() == lines@.len(),
        forall|i: int| 0 <= i < r@.len() ==> (#[trigger] r@[i])@ == doc_line(lines@[i]@),
{
    let mut r: Vec<String> = Vec::new();
    let mut i: usize = 0;
    while i < lines.len()
        invariant
            i <= lines@.len(),
            r@.len() == i,
            forall|k: int| 0 <= k < i ==> (#[trigger] r@[k])@ == doc_line(lines@[k]@),
        decreases lines@.len() - i,
    {
        let lit = string_literal(lines[i].as_str());
        let mut line = String::from_str("#[doc = ");
        line.append(lit.as_str());
        line.append("]");
        r.push(line);
        i = i + 1;
    }
    r
}

/// Lays lines out as text, each followed by a newline.
pub fn join_lines(lines: &Vec<String>) -> (r: String)
    ensures
        r@ == lines_text(lines@.map_values(|l: String| l@)),
{
    let ghost views = lines@.map_values(|l: String| l@);
    let mut r = String::new();
    let mut i: usize = 0;
    while i < lines.len()
        invariant
            i <= lines@.len(),
            views == lines@.map_values(|l: String| l@),
            r@ == lines_text(views.subrange(0, i as int)),
        decreases lines@.len() - i,
    {
        r.append(lines[i].as_str());
        r.append("\n");
        let ghost next = views.subrange(0, i as int + 1);
        let ghost m = next.map_values(|l: Seq<char>| l + "\n"@);
        assert(m.drop_last() =~= views.subrange(0, i as int).map_values(|l: Seq<char>| l + "\n"@));
        i = i + 1;
    }
    assert(views.subrange(0, lines@.len() as int) =~= views);
    r
}

proof fn lemma_lower_not_upper(c: char)
    ensures
        !is_upper(lower(c)),
{
}

proof fn lemma_snake_no_upper(s: Seq<char>)
    ensures
        no_upper(snake(s)),
    decreases s.len(),
{
    if s.len() > 0 {
        lemma_snake_no_upper(s.drop_last());
        lemma_lower_not_upper(s.last());
    }
}

proof fn lemma_snake_fixes_lower(s: Seq<char>)
    requires
        no_upper(s),
    ensures
        snake(s) == s,
    decreases s.len(),
{
    if s.len() > 0 {
        let p = s.drop_last();
        assert(no_upper(p)) by {
            assert forall|i: int| 0 <= i < p.len() implies !is_upper(#[trigger] p[i]) by {
                assert(p[i] == s[i]);
            }
        }
        lemma_snake_fixes_lower(p);
        assert(!is_upper(s[s.len() - 1]));
        assert(snake(s) =~= s);
    }
}

/// Folding a name that is already folded changes nothing: `derive_identifier`
/// is idempotent.
pub proof fn lemma_derive_identifier_idempotent(s: Seq<char>)
    ensures
        snake(snake(s)) == snake(s),
{
    lemma_snake_no_upper(s);
    lemma_snake_fixes_lower(snake(s));
}

} // verus!
