//! Texts and what is read out of them: splitting and gluing, decimal notation, searching, names of columns.

use vstd::prelude::*;

use crate::expressions::{doubled_backticks, field_text, path_text, plain_field_name, ColumnName};
use crate::text::{
    decimal, decimal_int_text, decimal_text, digit, join2, join3, same_text, split_on,
    split_text, text_occurs_in, texts,
};

verus! {

/// The pieces with the separator between them.
pub open spec fn glued(pieces: Seq<Seq<char>>, separator: char) -> Seq<char>
    decreases pieces.len(),
{
    if pieces.len() == 0 {
        Seq::empty()
    } else if pieces.len() == 1 {
        pieces[0]
    } else {
        glued(pieces.drop_last(), separator) + seq![separator] + pieces.last()
    }
}

/// Does the separator stand in none of the pieces?
pub open spec fn free_of(pieces: Seq<Seq<char>>, separator: char) -> bool {
    forall|i: int, j: int|
        0 <= i < pieces.len() && 0 <= j < pieces[i].len() ==> #[trigger] pieces[i][j] != separator
}

/// The pieces of a text, glued together again, are the text. The separator stands in none of them, and there is
/// at least one.
pub proof fn law_split_pieces_are_the_text(s: Seq<char>, separator: char)
    ensures
        split_on(s, separator).len() > 0,
        glued(split_on(s, separator), separator) == s,
        free_of(split_on(s, separator), separator),
    decreases s.len(),
{
    let pieces = split_on(s, separator);
    if s.len() == 0 {
        assert(s =~= Seq::empty());
    } else {
        let rest = split_on(s.drop_last(), separator);
        law_split_pieces_are_the_text(s.drop_last(), separator);
        if s.last() == separator {
            assert(pieces.drop_last() =~= rest);
            assert(glued(pieces, separator) =~= s);
        } else {
            assert(pieces.drop_last() =~= rest.drop_last());
            assert(pieces.last() == rest.last().push(s.last()));
            assert(glued(pieces, separator) =~= glued(rest, separator).push(s.last()));
            assert(glued(pieces, separator) =~= s);
            assert forall|i: int, j: int|
                0 <= i < pieces.len() && 0 <= j < pieces[i].len() implies #[trigger] pieces[i][j]
                != separator by {
                if i < rest.len() - 1 {
                    assert(pieces[i] == rest[i]);
                    assert(rest[i][j] != separator);
                } else if j < rest.last().len() {
                    assert(rest[i][j] != separator);
                }
            }
        }
    }
}

/// Splitting undoes gluing, for pieces in which the separator does not stand.
pub proof fn law_split_undoes_gluing(pieces: Seq<Seq<char>>, separator: char)
    requires
        pieces.len() > 0,
        free_of(pieces, separator),
    ensures
        split_on(glued(pieces, separator), separator) == pieces,
    decreases pieces.len(), pieces.last().len(),
{
    let s = glued(pieces, separator);
    let last = pieces.last();
    if last.len() == 0 {
        if pieces.len() == 1 {
            assert(s =~= Seq::empty());
            assert(pieces =~= seq![Seq::empty()]);
        } else {
            let rest = pieces.drop_last();
            assert forall|i: int, j: int|
                0 <= i < rest.len() && 0 <= j < rest[i].len() implies #[trigger] rest[i][j]
                != separator by {
                assert(pieces[i][j] != separator);
            }
            law_split_undoes_gluing(rest, separator);
            assert(s =~= glued(rest, separator).push(separator));
            assert(s.drop_last() =~= glued(rest, separator));
            assert(last =~= Seq::empty());
            assert(pieces =~= rest.push(Seq::empty()));
        }
    } else {
        let shorter = pieces.drop_last().push(last.drop_last());
        assert forall|i: int, j: int|
            0 <= i < shorter.len() && 0 <= j < shorter[i].len() implies #[trigger] shorter[i][j]
            != separator by {
            assert(pieces[i][j] != separator);
        }
        law_split_undoes_gluing(shorter, separator);
        assert(shorter.drop_last() =~= pieces.drop_last());
        assert(s.drop_last() =~= glued(shorter, separator));
        assert(s.last() == last.last());
        assert(pieces[pieces.len() - 1][last.len() - 1] != separator);
        assert(last.drop_last().push(last.last()) =~= last);
        assert(pieces =~= shorter.drop_last().push(shorter.last().push(s.last())));
    }
}

/// Splitting a string gives the one list of pieces without separator that glues together to it.
pub proof fn law_split_text(s: &str, separator: char, r: Vec<String>, pieces: Seq<Seq<char>>)
    requires
        call_ensures(split_text, (s, separator), r),
    ensures
        texts(r@) == pieces <==> pieces.len() > 0 && free_of(pieces, separator) && glued(
            pieces,
            separator,
        ) == s@,
{
    law_split_pieces_are_the_text(s@, separator);
    if pieces.len() > 0 && free_of(pieces, separator) && glued(pieces, separator) == s@ {
        law_split_undoes_gluing(pieces, separator);
    }
}

/// Every dot in a name separates two fields of the column's path, and nothing else does.
pub proof fn law_column_path_is_split_at_each_dot(
    name: &str,
    r: ColumnName,
    pieces: Seq<Seq<char>>,
)
    requires
        call_ensures(ColumnName::from_naive_str_split, (name,), r),
    ensures
        r@ == pieces <==> pieces.len() > 0 && free_of(pieces, '.') && glued(pieces, '.') == name@,
{
    law_split_pieces_are_the_text(name@, '.');
    if pieces.len() > 0 && free_of(pieces, '.') && glued(pieces, '.') == name@ {
        law_split_undoes_gluing(pieces, '.');
    }
}

/// A column is known by the fields that it was made of, in their order, and joining puts the fields of the second
/// behind those of the first.
pub proof fn law_column_names_are_made_of_their_fields(
    path: Vec<String>,
    column: ColumnName,
    back: &Vec<String>,
    right: ColumnName,
    joined: ColumnName,
    copied: ColumnName,
)
    requires
        call_ensures(ColumnName::new, (path,), column),
        call_ensures(ColumnName::path, (&column,), back),
        call_ensures(ColumnName::join, (&column, &right), joined),
        call_ensures(ColumnName::copy, (&column,), copied),
    ensures
        back@.len() == path@.len(),
        forall|i: int| 0 <= i < path@.len() ==> (#[trigger] back@[i])@ == path@[i]@,
        joined@.len() == path@.len() + right@.len(),
        forall|i: int| 0 <= i < path@.len() ==> #[trigger] joined@[i] == path@[i]@,
        forall|i: int| 0 <= i < right@.len() ==> joined@[path@.len() + i] == #[trigger] right@[i],
        copied@ == column@,
{
    assert(texts(back@) == texts(path@));
    assert(texts(back@).len() == texts(path@).len());
    assert forall|i: int| 0 <= i < path@.len() implies (#[trigger] back@[i])@ == path@[i]@ by {
        assert(texts(back@)[i] == texts(path@)[i]);
    }
    assert forall|i: int| 0 <= i < path@.len() implies #[trigger] joined@[i] == path@[i]@ by {
        assert(joined@[i] == column@[i]);
    }
}

/// The number that decimal digits denote, the most significant first.
pub open spec fn number_of(digits: Seq<char>) -> int
    decreases digits.len(),
{
    if digits.len() == 0 {
        0
    } else {
        number_of(digits.drop_last()) * 10 + (digits.last() as int - '0' as int)
    }
}

/// The decimal notation of a number consists of digits, denotes the number, and does not begin with a zero
/// unless it is a single one.
pub proof fn law_decimal_notation_denotes_the_number(n: nat)
    ensures
        decimal(n).len() > 0,
        forall|i: int| 0 <= i < decimal(n).len() ==> '0' <= #[trigger] decimal(n)[i] <= '9',
        number_of(decimal(n)) == n,
        decimal(n)[0] == '0' ==> n == 0 && decimal(n).len() == 1,
    decreases n,
{
    let d = digit(n % 10);
    assert('0' <= d <= '9' && d as int - '0' as int == n % 10);
    if n < 10 {
        assert(decimal(n) =~= seq![digit(n)]);
        assert(decimal(n).drop_last() =~= Seq::empty());
        assert(number_of(decimal(n).drop_last()) == 0);
    } else {
        law_decimal_notation_denotes_the_number(n / 10);
        let rest = decimal(n / 10);
        assert(decimal(n) =~= rest.push(d));
        assert(decimal(n).drop_last() =~= rest);
        assert forall|i: int| 0 <= i < decimal(n).len() implies '0' <= #[trigger] decimal(n)[i]
            <= '9' by {
            if i < rest.len() {
                assert(decimal(n)[i] == rest[i]);
            }
        }
        assert(decimal(n)[0] == rest[0]);
    }
}

/// The decimal notation of a signed number is that of its amount, after a minus sign where it is negative.
pub proof fn law_signed_decimal_notation(n: i64, r: String)
    requires
        call_ensures(decimal_int_text, (n,), r),
    ensures
        n >= 0 ==> number_of(r@) == n && r@.len() > 0 && forall|i: int|
            0 <= i < r@.len() ==> '0' <= #[trigger] r@[i] <= '9',
        n < 0 ==> r@.len() > 1 && r@[0] == '-' && number_of(r@.skip(1)) == -n && forall|i: int|
            1 <= i < r@.len() ==> '0' <= #[trigger] r@[i] <= '9',
{
    if n < 0 {
        law_decimal_notation_denotes_the_number((-n) as nat);
        let digits = decimal((-n) as nat);
        assert(r@ =~= seq!['-'] + digits);
        assert(r@.skip(1) =~= digits);
        assert forall|i: int| 1 <= i < r@.len() implies '0' <= #[trigger] r@[i] <= '9' by {
            assert(r@[i] == digits[i - 1]);
        }
    } else {
        law_decimal_notation_denotes_the_number(n as nat);
    }
}

/// The decimal notation of an unsigned number denotes it.
pub proof fn law_unsigned_decimal_notation(n: u64, r: String)
    requires
        call_ensures(decimal_text, (n,), r),
    ensures
        number_of(r@) == n,
        r@.len() > 0,
        forall|i: int| 0 <= i < r@.len() ==> '0' <= #[trigger] r@[i] <= '9',
        r@[0] == '0' ==> n == 0 && r@.len() == 1,
{
    law_decimal_notation_denotes_the_number(n as nat);
}

/// Joined strings stand one after the other, and strings are the same if their characters are.
pub proof fn law_joining_and_comparing(
    a: &str,
    b: &str,
    c: &str,
    two: String,
    three: String,
    same: bool,
)
    requires
        call_ensures(join2, (a, b), two),
        call_ensures(join3, (a, b, c), three),
        call_ensures(same_text, (a, b), same),
    ensures
        two@.len() == a@.len() + b@.len(),
        forall|i: int| 0 <= i < a@.len() ==> #[trigger] two@[i] == a@[i],
        forall|i: int| 0 <= i < b@.len() ==> two@[a@.len() + i] == #[trigger] b@[i],
        three@ == two@ + c@,
        same <==> a@.len() == b@.len() && forall|i: int|
            0 <= i < a@.len() ==> #[trigger] a@[i] == b@[i],
{
    if a@.len() == b@.len() && (forall|i: int| 0 <= i < a@.len() ==> #[trigger] a@[i] == b@[i]) {
        assert(a@ =~= b@);
    }
}

/// A string is found in another exactly where that one is made of something, the string and something more.
pub proof fn law_found_text_stands_between(
    part: &str,
    whole: &str,
    r: bool,
    before: Seq<char>,
    after: Seq<char>,
)
    requires
        call_ensures(text_occurs_in, (part, whole), r),
    ensures
        whole@ == before + part@ + after ==> r,
        r ==> exists|i: int, j: int|
            0 <= i <= j <= whole@.len() && whole@ == #[trigger] whole@.take(i) + part@
                + #[trigger] whole@.skip(j),
{
    if whole@ == before + part@ + after {
        let i = before.len() as int;
        assert(whole@.subrange(i, i + part@.len()) =~= part@);
    }
    if r {
        let i = choose|i: int|
            0 <= i <= whole@.len() - part@.len() && #[trigger] whole@.subrange(i, i + part@.len())
                == part@;
        let j = i + part@.len();
        assert(whole@ =~= whole@.take(i) + whole@.subrange(i, j) + whole@.skip(j));
        assert(whole@ == whole@.take(i) + part@ + whole@.skip(j));
    }
}

proof fn lemma_doubled_backticks_tell_the_name(a: Seq<char>, b: Seq<char>)
    requires
        doubled_backticks(a) == doubled_backticks(b),
    ensures
        a == b,
    decreases a.len(),
{
    if a.len() == 0 {
        if b.len() > 0 {
            assert(doubled_backticks(b).len() > 0);
        }
        assert(a =~= b);
    } else if b.len() == 0 {
        assert(doubled_backticks(a).len() > 0);
    } else {
        let x = doubled_backticks(a.drop_last());
        let y = doubled_backticks(b.drop_last());
        assert(doubled_backticks(a).last() == a.last());
        assert(doubled_backticks(b).last() == b.last());
        if a.last() == '`' {
            assert(x.push('`').push('`').drop_last().drop_last() =~= x);
            assert(y.push('`').push('`').drop_last().drop_last() =~= y);
        } else {
            assert(x.push(a.last()).drop_last() =~= x);
            assert(y.push(b.last()).drop_last() =~= y);
        }
        lemma_doubled_backticks_tell_the_name(a.drop_last(), b.drop_last());
        assert(a =~= a.drop_last().push(a.last()));
        assert(b =~= b.drop_last().push(b.last()));
    }
}

/// Different names of fields are written differently.
pub proof fn law_written_field_tells_its_name(a: Seq<char>, b: Seq<char>)
    requires
        field_text(a) == field_text(b),
    ensures
        a == b,
{
    let quoted_a = seq!['`'] + doubled_backticks(a) + seq!['`'];
    let quoted_b = seq!['`'] + doubled_backticks(b) + seq!['`'];
    assert(quoted_a[0] == '`' && quoted_b[0] == '`');
    if plain_field_name(a) {
        assert(a[0] != '`');
    }
    if plain_field_name(b) {
        assert(b[0] != '`');
    }
    if !plain_field_name(a) && !plain_field_name(b) {
        assert(quoted_a.drop_first().drop_last() =~= doubled_backticks(a));
        assert(quoted_b.drop_first().drop_last() =~= doubled_backticks(b));
        lemma_doubled_backticks_tell_the_name(a, b);
    }
}

/// A name of letters, digits and underscores that does not begin with a digit is written as it is; a column in
/// such fields is written with dots between them.
pub proof fn law_plain_columns_are_written_with_dots(column: ColumnName, r: String)
    requires
        call_ensures(ColumnName::to_text, (&column,), r),
        forall|i: int| 0 <= i < column@.len() ==> plain_field_name(#[trigger] column@[i]),
    ensures
        r@ == glued(column@, '.'),
{
    lemma_plain_path(column@);
}

proof fn lemma_plain_path(path: Seq<Seq<char>>)
    requires
        forall|i: int| 0 <= i < path.len() ==> plain_field_name(#[trigger] path[i]),
    ensures
        path_text(path) == glued(path, '.'),
    decreases path.len(),
{
    if path.len() > 1 {
        let rest = path.drop_last();
        assert forall|i: int| 0 <= i < rest.len() implies plain_field_name(#[trigger] rest[i]) by {
            assert(plain_field_name(path[i]));
        }
        lemma_plain_path(rest);
        assert(plain_field_name(path[path.len() - 1]));
    } else if path.len() == 1 {
        assert(plain_field_name(path[0]));
    }
}

/// Does a name stand without quotes: letters, digits and underscores, and no digit at its beginning?
pub open spec fn needs_no_quotes(name: Seq<char>) -> bool {
    &&& name.len() >= 1
    &&& name[0] < '0' || '9' < name[0]
    &&& forall|i: int|
        0 <= i < name.len() ==> (('a' <= #[trigger] name[i] && name[i] <= 'z') || ('A' <= name[i]
            && name[i] <= 'Z') || ('0' <= name[i] && name[i] <= '9') || name[i] == '_')
}

/// A column of one field is written as its name, if that needs no quotes, and else between backticks.
pub proof fn law_other_names_are_quoted(column: ColumnName, r: String)
    requires
        call_ensures(ColumnName::to_text, (&column,), r),
        column@.len() == 1,
    ensures
        needs_no_quotes(column@[0]) ==> r@ == column@[0],
        !needs_no_quotes(column@[0]) ==> r@.len() >= 2 && r@[0] == '`' && r@.last() == '`',
        !needs_no_quotes(column@[0]) && !column@[0].contains('`') ==> r@ == seq!['`'] + column@[0]
            + seq!['`'],
{
    let name = column@[0];
    assert(needs_no_quotes(name) <==> crate::expressions::plain_field_name(name)) by {
        if needs_no_quotes(name) {
            assert forall|i: int| 0 <= i < name.len() implies crate::expressions::simple_char(
                #[trigger] name[i],
            ) by {}
        }
        if crate::expressions::plain_field_name(name) {
            assert forall|i: int| 0 <= i < name.len() implies (('a' <= #[trigger] name[i] && name[i]
                <= 'z') || ('A' <= name[i] && name[i] <= 'Z') || ('0' <= name[i] && name[i] <= '9')
                || name[i] == '_') by {
                assert(crate::expressions::simple_char(name[i]));
            }
        }
    }
    if !needs_no_quotes(name) && !name.contains('`') {
        lemma_nothing_to_double(name);
    }
}

proof fn lemma_nothing_to_double(name: Seq<char>)
    requires
        !name.contains('`'),
    ensures
        doubled_backticks(name) == name,
    decreases name.len(),
{
    if name.len() > 0 {
        assert(name[name.len() - 1] == name.last());
        assert forall|i: int| 0 <= i < name.drop_last().len() implies name.drop_last()[i] != '`' by {
            assert(name[i] != '`');
        }
        lemma_nothing_to_double(name.drop_last());
        assert(name.drop_last().push(name.last()) =~= name);
    } else {
        assert(doubled_backticks(name) =~= name);
    }
}

} // verus!
