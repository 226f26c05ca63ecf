//! Textual building blocks shared by the instruction renderers: joining,
//! quoting, newline escaping and decimal formatting, each with a spec-level
//! definition and a verified executable counterpart.

use vstd::prelude::*;
use vstd::string::StrSliceExecFns;
use vstd::string::StringExecFns;

verus! {

/// The pieces of `items` joined with `sep` between consecutive pieces.
pub open spec fn spec_join(items: Seq<Seq<char>>, sep: Seq<char>) -> Seq<char>
    decreases items.len(),
{
    if items.len() == 0 {
        Seq::empty()
    } else if items.len() == 1 {
        items[0]
    } else {
        spec_join(items.drop_last(), sep) + sep + items.last()
    }
}

/// `s` wrapped in double quotes, verbatim: embedded quote characters are the
/// caller's responsibility and are not escaped.
pub open spec fn spec_quoted(s: Seq<char>) -> Seq<char> {
    "\""@ + s + "\""@
}

/// A bracketed, quoted, comma-joined argument list.
pub open spec fn spec_quoted_list(items: Seq<Seq<char>>) -> Seq<char> {
    "["@ + spec_join(items.map_values(|s: Seq<char>| spec_quoted(s)), ", "@) + "]"@
}

/// Renders `["a", "b", ...]` for the given arguments.
pub fn render_quoted_list(items: &Vec<String>) -> (r: String)
    ensures
        r@ == spec_quoted_list(items.deep_view()),
{
    let ghost model = items.deep_view();
    let ghost quoted_model = model.map_values(|s: Seq<char>| spec_quoted(s));
    let mut r = String::from_str("[");
    let mut i: usize = 0;
    while i < items.len()
        invariant
            i <= items.len(),
            model == items.deep_view(),
            model.len() == items.len(),
            quoted_model == model.map_values(|s: Seq<char>| spec_quoted(s)),
            r@ == "["@ + spec_join(quoted_model.take(i as int), ", "@),
        decreases items.len() - i,
    {
        if i > 0 {
            r.append(", ");
        }
        r.append("\"");
        r.append(items[i].as_str());
        r.append("\"");
        proof {
            assert(model[i as int] == items[i as int]@);
            assert(quoted_model[i as int] == spec_quoted(model[i as int]));
            assert(quoted_model.take(i + 1).drop_last() =~= quoted_model.take(i as int));
            assert(quoted_model.take(i + 1).last() == quoted_model[i as int]);
            assert(r@ =~= "["@ + spec_join(quoted_model.take(i + 1), ", "@));
        }
        i += 1;
    }
    proof {
        assert(quoted_model.take(items.len() as int) =~= quoted_model);
    }
    let r = r.concat("]");
    r
}

/// Where piece `i` begins inside a join of `items` by a separator of
/// length `sep_len`: after the earlier pieces, each followed by one
/// separator.
pub open spec fn spec_join_offset(items: Seq<Seq<char>>, sep_len: nat, i: int) -> int
    decreases i,
{
    if i <= 0 {
        0
    } else {
        spec_join_offset(items, sep_len, i - 1) + items[i - 1].len() + sep_len
    }
}

/// The offset of a piece does not depend on the pieces after it.
proof fn lemma_join_offset_drop_last(items: Seq<Seq<char>>, sep_len: nat, i: int)
    requires
        0 <= i < items.len(),
    ensures
        spec_join_offset(items.drop_last(), sep_len, i) == spec_join_offset(items, sep_len, i),
    decreases i,
{
    if i > 0 {
        lemma_join_offset_drop_last(items, sep_len, i - 1);
    }
}

/// Offsets grow along the pieces, and each piece ends at or before the
/// offset of the next.
proof fn lemma_join_offset_mono(items: Seq<Seq<char>>, sep_len: nat, i: int, j: int)
    requires
        0 <= i <= j,
    ensures
        spec_join_offset(items, sep_len, i) <= spec_join_offset(items, sep_len, j),
    decreases j - i,
{
    if i < j {
        lemma_join_offset_mono(items, sep_len, i, j - 1);
    }
}

/// A non-empty join is exactly as long as the offset of its last piece plus
/// that piece.
proof fn lemma_join_len(items: Seq<Seq<char>>, sep: Seq<char>)
    requires
        items.len() > 0,
    ensures
        spec_join(items, sep).len() == spec_join_offset(items, sep.len(), items.len() - 1)
            + items.last().len(),
    decreases items.len(),
{
    if items.len() > 1 {
        lemma_join_len(items.drop_last(), sep);
        lemma_join_offset_drop_last(items, sep.len(), items.len() - 2);
        assert(spec_join_offset(items, sep.len(), items.len() - 1) == spec_join_offset(
            items,
            sep.len(),
            items.len() - 2,
        ) + items[items.len() - 2].len() + sep.len());
    }
}

/// Every piece appears verbatim in the joined text, in input order: piece
/// `i` spans exactly the range beginning at its offset.
pub proof fn lemma_join_piece_at(items: Seq<Seq<char>>, sep: Seq<char>, i: int)
    requires
        0 <= i < items.len(),
    ensures
        0 <= spec_join_offset(items, sep.len(), i),
        spec_join_offset(items, sep.len(), i) + items[i].len() <= spec_join(items, sep).len(),
        spec_join(items, sep).subrange(
            spec_join_offset(items, sep.len(), i),
            spec_join_offset(items, sep.len(), i) + items[i].len(),
        ) == items[i],
    decreases items.len(),
{
    lemma_join_offset_mono(items, sep.len(), 0, i);
    lemma_join_len(items, sep);
    if i == items.len() - 1 {
        if items.len() == 1 {
            assert(spec_join(items, sep).subrange(0, items[0].len() as int) =~= items[0]);
        } else {
            let prefix = spec_join(items.drop_last(), sep);
            lemma_join_len(items.drop_last(), sep);
            lemma_join_offset_drop_last(items, sep.len(), items.len() - 2);
            assert(spec_join_offset(items, sep.len(), i) == prefix.len() + sep.len());
            assert(spec_join(items, sep).subrange(
                prefix.len() + sep.len() as int,
                prefix.len() + sep.len() + items[i].len() as int,
            ) =~= items[i]);
        }
    } else {
        let prefix = spec_join(items.drop_last(), sep);
        lemma_join_piece_at(items.drop_last(), sep, i);
        lemma_join_offset_drop_last(items, sep.len(), i);
        if i + 1 <= items.len() - 2 {
            lemma_join_offset_mono(items.drop_last(), sep.len(), i + 1, items.len() - 2);
        }
        lemma_join_len(items.drop_last(), sep);
        assert(spec_join_offset(items.drop_last(), sep.len(), i + 1) == spec_join_offset(
            items.drop_last(),
            sep.len(),
            i,
        ) + items.drop_last()[i].len() + sep.len());
        assert(spec_join_offset(items, sep.len(), i) + items[i].len() <= prefix.len());
        assert(spec_join(items, sep).subrange(
            spec_join_offset(items, sep.len(), i),
            spec_join_offset(items, sep.len(), i) + items[i].len(),
        ) =~= prefix.subrange(
            spec_join_offset(items, sep.len(), i),
            spec_join_offset(items, sep.len(), i) + items[i].len(),
        ));
    }
}

/// How many times `c` occurs in `s`.
pub open spec fn spec_count_char(s: Seq<char>, c: char) -> nat
    decreases s.len(),
{
    if s.len() == 0 {
        0
    } else {
        spec_count_char(s.drop_last(), c) + (if s.last() == c {
            1nat
        } else {
            0nat
        })
    }
}

/// Counting distributes over concatenation.
proof fn lemma_count_char_concat(a: Seq<char>, b: Seq<char>, c: char)
    ensures
        spec_count_char(a + b, c) == spec_count_char(a, c) + spec_count_char(b, c),
    decreases b.len(),
{
    if b.len() == 0 {
        assert(a + b =~= a);
    } else {
        lemma_count_char_concat(a, b.drop_last(), c);
        assert((a + b).drop_last() =~= a + b.drop_last());
        assert((a + b).last() == b.last());
    }
}

/// The count in a one-character text.
proof fn lemma_count_char_singleton(x: char, c: char)
    ensures
        spec_count_char(seq![x], c) == (if x == c {
            1nat
        } else {
            0nat
        }),
{
    assert(seq![x].drop_last() =~= Seq::<char>::empty());
    assert(spec_count_char(Seq::<char>::empty(), c) == 0);
}

/// Every input element appears in a rendered argument list, quoted and in
/// input order: element `i` spans exactly the range that begins at its
/// offset among the quoted elements, one bracket past the start.
pub proof fn lemma_quoted_list_elements(items: Seq<Seq<char>>, i: int)
    requires
        0 <= i < items.len(),
    ensures
        ({
            let quoted_items = items.map_values(|s: Seq<char>| spec_quoted(s));
            let off = "["@.len() + spec_join_offset(quoted_items, ", "@.len(), i);
            &&& 0 <= off
            &&& off + spec_quoted(items[i]).len() <= spec_quoted_list(items).len()
            &&& spec_quoted_list(items).subrange(off, off + spec_quoted(items[i]).len())
                == spec_quoted(items[i])
        }),
{
    let quoted_items = items.map_values(|s: Seq<char>| spec_quoted(s));
    let off = "["@.len() + spec_join_offset(quoted_items, ", "@.len(), i);
    lemma_join_piece_at(quoted_items, ", "@, i);
    assert(quoted_items[i] == spec_quoted(items[i]));
    assert(spec_quoted_list(items).subrange(off, off + spec_quoted(items[i]).len())
        =~= spec_join(quoted_items, ", "@).subrange(
        spec_join_offset(quoted_items, ", "@.len(), i),
        spec_join_offset(quoted_items, ", "@.len(), i) + spec_quoted(items[i]).len(),
    ));
}

proof fn lemma_quoted_join_count(items: Seq<Seq<char>>)
    requires
        forall|i: int| 0 <= i < items.len() ==> spec_count_char(items[i], '"') == 0,
    ensures
        spec_count_char(
            spec_join(items.map_values(|s: Seq<char>| spec_quoted(s)), ", "@),
            '"',
        ) == 2 * items.len(),
    decreases items.len(),
{
    reveal_strlit("\"");
    reveal_strlit(", ");
    assert("\""@ =~= seq!['"']);
    assert(", "@ =~= seq![',', ' ']);
    lemma_count_char_singleton('"', '"');
    assert(spec_count_char(seq!['"'], '"') == 1);
    lemma_count_char_singleton(',', '"');
    assert(seq![',', ' '].drop_last() =~= seq![',']);
    assert(seq![',', ' '].last() == ' ');
    assert(spec_count_char(seq![',', ' '], '"') == 0);
    let quoted_items = items.map_values(|s: Seq<char>| spec_quoted(s));
    if items.len() == 0 {
    } else {
        lemma_count_char_concat("\""@ + items.last(), "\""@, '"');
        lemma_count_char_concat("\""@, items.last(), '"');
        assert(quoted_items.last() == spec_quoted(items.last()));
        assert(spec_count_char(quoted_items.last(), '"') == 2);
        if items.len() > 1 {
            lemma_quoted_join_count(items.drop_last());
            let prev = items.drop_last().map_values(|s: Seq<char>| spec_quoted(s));
            assert(quoted_items.drop_last() =~= prev);
            lemma_count_char_concat(
                spec_join(quoted_items.drop_last(), ", "@) + ", "@,
                quoted_items.last(),
                '"',
            );
            lemma_count_char_concat(spec_join(quoted_items.drop_last(), ", "@), ", "@, '"');
        }
    }
}

/// In the rendered list of quote-free elements, the quote character occurs
/// exactly twice per element: the output holds exactly as many quoted
/// elements as the input has elements.
pub proof fn lemma_quoted_list_count(items: Seq<Seq<char>>)
    requires
        forall|i: int| 0 <= i < items.len() ==> spec_count_char(items[i], '"') == 0,
    ensures
        spec_count_char(spec_quoted_list(items), '"') == 2 * items.len(),
{
    reveal_strlit("[");
    reveal_strlit("]");
    assert("["@ =~= seq!['[']);
    assert("]"@ =~= seq![']']);
    lemma_count_char_singleton('[', '"');
    lemma_count_char_singleton(']', '"');
    assert(spec_count_char("["@, '"') == 0);
    assert(spec_count_char("]"@, '"') == 0);
    lemma_quoted_join_count(items);
    let joined = spec_join(items.map_values(|s: Seq<char>| spec_quoted(s)), ", "@);
    lemma_count_char_concat("["@ + joined, "]"@, '"');
    lemma_count_char_concat("["@, joined, '"');
}

/// `s` holds a newline only right after a backslash: every newline in it is
/// part of a line-continuation pair.
pub open spec fn spec_newlines_escaped(s: Seq<char>) -> bool {
    forall|j: int| 0 <= j < s.len() && #[trigger] s[j] == '\n' ==> j > 0 && s[j - 1] == '\\'
}

/// `s` holds no newline at all.
pub open spec fn spec_no_newline(s: Seq<char>) -> bool {
    forall|j: int| 0 <= j < s.len() ==> s[j] != '\n'
}

/// Escaped-newline text stays escaped under concatenation.
pub proof fn lemma_newlines_escaped_concat(a: Seq<char>, b: Seq<char>)
    requires
        spec_newlines_escaped(a),
        spec_newlines_escaped(b),
    ensures
        spec_newlines_escaped(a + b),
{
    assert forall|j: int| 0 <= j < (a + b).len() && #[trigger] (a + b)[j] == '\n' implies j > 0 && (
    a + b)[j - 1] == '\\' by {
        if j < a.len() {
            assert(a[j] == '\n');
        } else {
            assert(b[j - a.len()] == '\n');
            assert(j - a.len() > 0);
            assert(b[j - a.len() - 1] == '\\');
        }
    }
}

/// Text without any newline is trivially escaped.
pub proof fn lemma_no_newline_escaped(s: Seq<char>)
    requires
        spec_no_newline(s),
    ensures
        spec_newlines_escaped(s),
{
}

/// The escape of any text holds newlines only as escaped continuations.
pub proof fn lemma_escape_newlines_escaped(s: Seq<char>)
    ensures
        spec_newlines_escaped(spec_escape_newlines(s)),
    decreases s.len(),
{
    if s.len() == 0 {
    } else {
        lemma_escape_newlines_escaped(s.drop_first());
        if s[0] == '\n' {
            reveal_strlit("\\\n");
            assert("\\\n"@ =~= seq!['\\', '\n']);
            assert(spec_newlines_escaped(seq!['\\', '\n']));
            lemma_newlines_escaped_concat(seq!['\\', '\n'], spec_escape_newlines(s.drop_first()));
            assert(spec_escape_newlines(s) == seq!['\\', '\n'] + spec_escape_newlines(
                s.drop_first(),
            ));
        } else {
            assert(spec_newlines_escaped(seq![s[0]]));
            lemma_newlines_escaped_concat(seq![s[0]], spec_escape_newlines(s.drop_first()));
        }
    }
}

/// A `key="value"` fragment is escaped when its key holds no raw newline
/// (keys are never escaped) and its value is already escaped.
pub proof fn lemma_kv_fragment_escaped(k: Seq<char>, v: Seq<char>)
    requires
        spec_no_newline(k),
        spec_newlines_escaped(v),
    ensures
        spec_newlines_escaped(spec_kv(k, v)),
{
    reveal_strlit("=\"");
    reveal_strlit("\"");
    assert("=\""@ =~= seq!['=', '"']);
    assert("\""@ =~= seq!['"']);
    assert(spec_no_newline(seq!['=', '"']));
    assert(spec_no_newline(seq!['"']));
    lemma_no_newline_escaped(k);
    lemma_no_newline_escaped(seq!['=', '"']);
    lemma_no_newline_escaped(seq!['"']);
    lemma_newlines_escaped_concat(k, seq!['=', '"']);
    lemma_newlines_escaped_concat(k + seq!['=', '"'], v);
    lemma_newlines_escaped_concat(k + seq!['=', '"'] + v, seq!['"']);
    assert(spec_kv(k, v) == k + seq!['=', '"'] + v + seq!['"']);
}

/// A join of escaped pieces by an escaped separator is escaped.
pub proof fn lemma_join_newlines_escaped(items: Seq<Seq<char>>, sep: Seq<char>)
    requires
        spec_newlines_escaped(sep),
        forall|i: int| 0 <= i < items.len() ==> spec_newlines_escaped(#[trigger] items[i]),
    ensures
        spec_newlines_escaped(spec_join(items, sep)),
    decreases items.len(),
{
    if items.len() == 0 {
        assert(spec_newlines_escaped(Seq::<char>::empty()));
    } else if items.len() == 1 {
        assert(spec_newlines_escaped(items[0]));
    } else {
        lemma_join_newlines_escaped(items.drop_last(), sep);
        lemma_newlines_escaped_concat(spec_join(items.drop_last(), sep), sep);
        lemma_newlines_escaped_concat(spec_join(items.drop_last(), sep) + sep, items.last());
    }
}

/// The decimal digit `d` as text.
pub open spec fn spec_digit(d: int) -> Seq<char> {
    if d == 0 {
        "0"@
    } else if d == 1 {
        "1"@
    } else if d == 2 {
        "2"@
    } else if d == 3 {
        "3"@
    } else if d == 4 {
        "4"@
    } else if d == 5 {
        "5"@
    } else if d == 6 {
        "6"@
    } else if d == 7 {
        "7"@
    } else if d == 8 {
        "8"@
    } else {
        "9"@
    }
}

/// The decimal representation of `n`, most significant digit first, with no
/// leading zeroes (a single `0` for zero itself).
pub open spec fn spec_decimal(n: nat) -> Seq<char>
    decreases n,
{
    if n < 10 {
        spec_digit(n as int)
    } else {
        spec_decimal(n / 10) + spec_digit((n % 10) as int)
    }
}

/// The decimal representation of a signed value: a minus sign for a negative
/// one, then the digits of its magnitude.
pub open spec fn spec_decimal_signed(n: int) -> Seq<char> {
    if n < 0 {
        "-"@ + spec_decimal((-n) as nat)
    } else {
        spec_decimal(n as nat)
    }
}

fn digit_str(d: u64) -> (r: &'static str)
    requires
        d < 10,
    ensures
        r@ == spec_digit(d as int),
{
    match d {
        0 => "0",
        1 => "1",
        2 => "2",
        3 => "3",
        4 => "4",
        5 => "5",
        6 => "6",
        7 => "7",
        8 => "8",
        _ => "9",
    }
}

/// Renders `n` in decimal.
pub fn render_u64(n: u64) -> (r: String)
    ensures
        r@ == spec_decimal(n as nat),
    decreases n,
{
    if n < 10 {
        String::from_str(digit_str(n))
    } else {
        let mut r = render_u64(n / 10);
        r.append(digit_str(n % 10));
        r
    }
}

/// Renders a port number in decimal.
pub fn render_u16(n: u16) -> (r: String)
    ensures
        r@ == spec_decimal(n as nat),
{
    render_u64(n as u64)
}

/// Renders a signed value in decimal.
pub fn render_i32(n: i32) -> (r: String)
    ensures
        r@ == spec_decimal_signed(n as int),
{
    if n >= 0 {
        render_u64(n as u64)
    } else {
        let magnitude = (-(n as i64)) as u64;
        proof {
            assert(magnitude as nat == (-(n as int)) as nat);
        }
        String::from_str("-").concat(render_u64(magnitude).as_str())
    }
}

/// `s` with every newline turned into a backslash-newline sequence, so that
/// a value spread over several lines stays a syntactically valid line
/// continuation.
pub open spec fn spec_escape_newlines(s: Seq<char>) -> Seq<char>
    decreases s.len(),
{
    if s.len() == 0 {
        Seq::empty()
    } else if s[0] == '\n' {
        "\\\n"@ + spec_escape_newlines(s.drop_first())
    } else {
        seq![s[0]] + spec_escape_newlines(s.drop_first())
    }
}

/// Escaping distributes over concatenation.
proof fn lemma_escape_newlines_concat(a: Seq<char>, b: Seq<char>)
    ensures
        spec_escape_newlines(a + b) == spec_escape_newlines(a) + spec_escape_newlines(b),
    decreases a.len(),
{
    if a.len() == 0 {
        assert(a + b =~= b);
        assert(spec_escape_newlines(a) + spec_escape_newlines(b) =~= spec_escape_newlines(b));
    } else {
        lemma_escape_newlines_concat(a.drop_first(), b);
        assert((a + b).drop_first() =~= a.drop_first() + b);
        assert((a + b)[0] == a[0]);
        if a[0] == '\n' {
            assert(spec_escape_newlines(a + b) =~= spec_escape_newlines(a)
                + spec_escape_newlines(b));
        } else {
            assert(spec_escape_newlines(a + b) =~= spec_escape_newlines(a)
                + spec_escape_newlines(b));
        }
    }
}

/// Escapes each newline in `s` to a backslash-newline sequence.
pub fn escape_newlines(s: &str) -> (r: String)
    ensures
        r@ == spec_escape_newlines(s@),
{
    let n = s.unicode_len();
    let mut r = String::new();
    let mut i: usize = 0;
    while i < n
        invariant
            n == s@.len(),
            i <= n,
            r@ == spec_escape_newlines(s@.take(i as int)),
        decreases n - i,
    {
        let c = s.get_char(i);
        proof {
            lemma_escape_newlines_concat(s@.take(i as int), seq![s@[i as int]]);
            assert(s@.take(i + 1) =~= s@.take(i as int) + seq![s@[i as int]]);
            assert(seq![s@[i as int]].drop_first() =~= Seq::<char>::empty());
        }
        if c == '\n' {
            r.append("\\\n");
            proof {
                let x = s@[i as int];
                assert(x == '\n');
                assert(seq![x].len() == 1);
                assert(seq![x][0] == '\n');
                assert(spec_escape_newlines(seq![x]) == "\\\n"@ + spec_escape_newlines(
                    seq![x].drop_first(),
                ));
                assert(spec_escape_newlines(seq![x].drop_first()) == spec_escape_newlines(
                    Seq::<char>::empty(),
                ));
                assert(spec_escape_newlines(Seq::<char>::empty()) =~= Seq::<char>::empty());
                assert(spec_escape_newlines(seq![s@[i as int]]) =~= "\\\n"@);
                assert(r@ =~= spec_escape_newlines(s@.take(i + 1)));
            }
        } else {
            let piece = s.substring_char(i, i + 1);
            r.append(piece);
            proof {
                let x = s@[i as int];
                assert(piece@ =~= seq![x]);
                assert(x != '\n');
                assert(seq![x].len() == 1);
                assert(seq![x][0] == x);
                assert(spec_escape_newlines(seq![x]) == seq![x] + spec_escape_newlines(
                    seq![x].drop_first(),
                ));
                assert(spec_escape_newlines(seq![x].drop_first()) == spec_escape_newlines(
                    Seq::<char>::empty(),
                ));
                assert(spec_escape_newlines(Seq::<char>::empty()) =~= Seq::<char>::empty());
                assert(spec_escape_newlines(seq![s@[i as int]]) =~= seq![s@[i as int]]);
                assert(r@ =~= spec_escape_newlines(s@.take(i + 1)));
            }
        }
        i += 1;
    }
    proof {
        assert(s@.take(n as int) =~= s@);
    }
    r
}

/// The views of stored key/value pairs.
pub open spec fn kv_view(pairs: Seq<(String, String)>) -> Seq<(Seq<char>, Seq<char>)> {
    pairs.map_values(|p: (String, String)| (p.0@, p.1@))
}

/// No two entries share a key.
pub open spec fn kv_keys_unique(entries: Seq<(Seq<char>, Seq<char>)>) -> bool {
    forall|i: int, j: int|
        0 <= i < j < entries.len() ==> entries[i].0 != entries[j].0
}

/// One `key="value"` fragment.
pub open spec fn spec_kv(k: Seq<char>, v: Seq<char>) -> Seq<char> {
    k + "=\""@ + v + "\""@
}

/// All entries as `key="value"` fragments joined with `sep`.
pub open spec fn spec_kv_join(entries: Seq<(Seq<char>, Seq<char>)>, sep: Seq<char>) -> Seq<char> {
    spec_join(entries.map_values(|p: (Seq<char>, Seq<char>)| spec_kv(p.0, p.1)), sep)
}

/// Renders all entries as `key="value"` fragments joined with `sep`.
pub fn render_kv_join(pairs: &Vec<(String, String)>, sep: &str) -> (r: String)
    ensures
        r@ == spec_kv_join(kv_view(pairs@), sep@),
{
    let ghost entries = kv_view(pairs@);
    let ghost frags = entries.map_values(|p: (Seq<char>, Seq<char>)| spec_kv(p.0, p.1));
    let mut r = String::new();
    let mut i: usize = 0;
    while i < pairs.len()
        invariant
            i <= pairs.len(),
            entries == kv_view(pairs@),
            entries.len() == pairs.len(),
            frags == entries.map_values(|p: (Seq<char>, Seq<char>)| spec_kv(p.0, p.1)),
            r@ == spec_join(frags.take(i as int), sep@),
        decreases pairs.len() - i,
    {
        if i > 0 {
            r.append(sep);
        }
        r.append(pairs[i].0.as_str());
        r.append("=\"");
        r.append(pairs[i].1.as_str());
        r.append("\"");
        proof {
            assert(entries[i as int] == (pairs@[i as int].0@, pairs@[i as int].1@));
            assert(frags[i as int] == spec_kv(entries[i as int].0, entries[i as int].1));
            assert(frags.take(i + 1).drop_last() =~= frags.take(i as int));
            assert(frags.take(i + 1).last() == frags[i as int]);
            assert(r@ =~= spec_join(frags.take(i + 1), sep@));
        }
        i += 1;
    }
    proof {
        assert(frags.take(pairs.len() as int) =~= frags);
    }
    r
}

/// The entries after writing `v` under `k`: a later value for an existing key
/// replaces the earlier one in place, a fresh key is appended at the end
/// (last write wins).
pub open spec fn spec_kv_upsert(
    entries: Seq<(Seq<char>, Seq<char>)>,
    k: Seq<char>,
    v: Seq<char>,
) -> Seq<(Seq<char>, Seq<char>)>
    decreases entries.len(),
{
    if entries.len() == 0 {
        seq![(k, v)]
    } else if entries[0].0 == k {
        seq![(k, v)] + entries.drop_first()
    } else {
        seq![entries[0]] + spec_kv_upsert(entries.drop_first(), k, v)
    }
}

/// Writing under a key already present at position `i` replaces that entry.
proof fn lemma_kv_upsert_at(
    entries: Seq<(Seq<char>, Seq<char>)>,
    k: Seq<char>,
    v: Seq<char>,
    i: int,
)
    requires
        0 <= i < entries.len(),
        entries[i].0 == k,
        forall|j: int| 0 <= j < i ==> entries[j].0 != k,
    ensures
        spec_kv_upsert(entries, k, v) == entries.update(i, (k, v)),
    decreases i,
{
    if i == 0 {
        assert(seq![(k, v)] + entries.drop_first() =~= entries.update(0, (k, v)));
    } else {
        assert(entries[0].0 != k);
        assert(forall|j: int| 0 <= j < i - 1 ==> entries.drop_first()[j] == entries[j + 1]);
        lemma_kv_upsert_at(entries.drop_first(), k, v, i - 1);
        assert(seq![entries[0]] + entries.drop_first().update(i - 1, (k, v)) =~= entries.update(
            i,
            (k, v),
        ));
    }
}

/// Writing under a key not yet present appends a new entry.
proof fn lemma_kv_upsert_absent(
    entries: Seq<(Seq<char>, Seq<char>)>,
    k: Seq<char>,
    v: Seq<char>,
)
    requires
        forall|j: int| 0 <= j < entries.len() ==> entries[j].0 != k,
    ensures
        spec_kv_upsert(entries, k, v) == entries.push((k, v)),
    decreases entries.len(),
{
    if entries.len() == 0 {
        assert(seq![(k, v)] =~= entries.push((k, v)));
    } else {
        assert(forall|j: int|
            0 <= j < entries.drop_first().len() ==> entries.drop_first()[j] == entries[j + 1]);
        lemma_kv_upsert_absent(entries.drop_first(), k, v);
        assert(seq![entries[0]] + entries.drop_first().push((k, v)) =~= entries.push((k, v)));
    }
}

/// Writes `value` under `key`, replacing an entry with the same key in place
/// or appending a fresh one; key uniqueness is preserved.
pub fn kv_upsert(pairs: &mut Vec<(String, String)>, key: String, value: String)
    requires
        kv_keys_unique(kv_view(old(pairs)@)),
    ensures
        kv_view(final(pairs)@) == spec_kv_upsert(kv_view(old(pairs)@), key@, value@),
        kv_keys_unique(kv_view(final(pairs)@)),
{
    let ghost entries0 = kv_view(pairs@);
    let mut i: usize = 0;
    while i < pairs.len()
        invariant
            i <= pairs.len(),
            pairs@ == old(pairs)@,
            entries0 == kv_view(pairs@),
            entries0.len() == pairs.len(),
            kv_keys_unique(entries0),
            forall|j: int| 0 <= j < i ==> entries0[j].0 != key@,
        decreases pairs.len() - i,
    {
        if pairs[i].0 == key {
            proof {
                assert(entries0[i as int].0 == key@);
                lemma_kv_upsert_at(entries0, key@, value@, i as int);
            }
            pairs.set(i, (key, value));
            proof {
                assert(kv_view(pairs@) =~= entries0.update(i as int, (key@, value@)));
                assert(forall|j: int|
                    0 <= j < kv_view(pairs@).len() && j != i ==> kv_view(pairs@)[j]
                        == entries0[j]);
                assert(kv_keys_unique(kv_view(pairs@)));
            }
            return ;
        }
        i += 1;
    }
    pairs.push((key, value));
    proof {
        lemma_kv_upsert_absent(entries0, key@, value@);
        assert(kv_view(pairs@) =~= entries0.push((key@, value@)));
        assert(forall|j: int|
            0 <= j < entries0.len() ==> kv_view(pairs@)[j] == entries0[j]);
        assert(kv_keys_unique(kv_view(pairs@)));
    }
}

} // verus!
