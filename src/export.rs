use vstd::prelude::*;
use crate::record::GameRecord;

verus! {

/// The hexadecimal digit of `d` (lower case).
pub open spec fn hex_char(d: int) -> char {
    if d == 0 { '0' } else if d == 1 { '1' } else if d == 2 { '2' } else if d == 3 { '3' }
    else if d == 4 { '4' } else if d == 5 { '5' } else if d == 6 { '6' } else if d == 7 { '7' }
    else if d == 8 { '8' } else if d == 9 { '9' } else if d == 10 { 'a' } else if d == 11 { 'b' }
    else if d == 12 { 'c' } else if d == 13 { 'd' } else if d == 14 { 'e' } else { 'f' }
}

/// The decimal digits of `n`, without leading zeros.
pub open spec fn decimal(n: nat) -> Seq<char>
    decreases n,
{
    if n < 10 {
        seq![hex_char(n as int)]
    } else {
        decimal(n / 10).push(hex_char((n % 10) as int))
    }
}

/// An integer written in decimal, with a minus sign when negative.
pub open spec fn int_text(n: int) -> Seq<char> {
    if n < 0 {
        seq!['-'] + decimal((-n) as nat)
    } else {
        decimal(n as nat)
    }
}

/// A character that a quoted string must write as an escape.
pub open spec fn is_control(c: char) -> bool {
    (c as u32) < 0x20 || (c as u32) == 0x7f
}

/// A character as it stands inside a double-quoted string.
pub open spec fn escape_char(c: char) -> Seq<char> {
    if c == '"' {
        seq!['\\', '"']
    } else if c == '\\' {
        seq!['\\', '\\']
    } else if is_control(c) {
        seq!['\\', 'u', '0', '0', hex_char((c as u32) as int / 16), hex_char((c as u32) as int % 16)]
    } else {
        seq![c]
    }
}

/// The text between the quotes of a quoted string holding `s`.
pub open spec fn escaped(s: Seq<char>) -> Seq<char>
    decreases s.len(),
{
    if s.len() == 0 {
        Seq::empty()
    } else {
        escaped(s.drop_last()) + escape_char(s.last())
    }
}

/// The line of an integer field, or nothing for an absent one.
pub open spec fn field_line(key: Seq<char>, v: Option<i64>) -> Seq<char> {
    match v {
        Some(x) => key + int_text(x as int) + "\n"@,
        None => Seq::empty(),
    }
}

/// One record as a table of the `games` array, followed by a blank line.
pub open spec fn record_text(g: GameRecord) -> Seq<char> {
    "[[games]]\nname = \""@ + escaped(g.name@) + "\"\n"@
        + field_line("min_players = "@, g.min_players)
        + field_line("max_players = "@, g.max_players)
        + field_line("playtime = "@, g.playtime)
        + field_line("year = "@, g.year)
        + "\n"@
}

/// The tables of all records, in order.
pub open spec fn records_text(s: Seq<GameRecord>) -> Seq<char>
    decreases s.len(),
{
    if s.len() == 0 {
        Seq::empty()
    } else {
        records_text(s.drop_last()) + record_text(s.last())
    }
}

/// The exported document: an empty `games` array when there are no
/// records, else one `[[games]]` table per record.
pub open spec fn document(s: Seq<GameRecord>) -> Seq<char> {
    if s.len() == 0 {
        "games = []\n"@
    } else {
        records_text(s)
    }
}

fn hex_str(d: u32) -> (r: &'static str)
    requires
        d < 16,
    ensures
        r@ == seq![hex_char(d as int)],
{
    match d {
        0 => { proof { reveal_strlit("0"); } "0" },
        1 => { proof { reveal_strlit("1"); } "1" },
        2 => { proof { reveal_strlit("2"); } "2" },
        3 => { proof { reveal_strlit("3"); } "3" },
        4 => { proof { reveal_strlit("4"); } "4" },
        5 => { proof { reveal_strlit("5"); } "5" },
        6 => { proof { reveal_strlit("6"); } "6" },
        7 => { proof { reveal_strlit("7"); } "7" },
        8 => { proof { reveal_strlit("8"); } "8" },
        9 => { proof { reveal_strlit("9"); } "9" },
        10 => { proof { reveal_strlit("a"); } "a" },
        11 => { proof { reveal_strlit("b"); } "b" },
        12 => { proof { reveal_strlit("c"); } "c" },
        13 => { proof { reveal_strlit("d"); } "d" },
        14 => { proof { reveal_strlit("e"); } "e" },
        _ => { proof { reveal_strlit("f"); } "f" },
    }
}

fn append_decimal(out: &mut String, n: u64)
    ensures
        final(out)@ == old(out)@ + decimal(n as nat),
    decreases n,
{
    if n >= 10 {
        append_decimal(out, n / 10);
        out.append(hex_str((n % 10) as u32));
        assert(final(out)@ =~= old(out)@ + decimal(n as nat));
    } else {
        out.append(hex_str(n as u32));
    }
}

/// Appends an integer in decimal.
pub fn append_int(out: &mut String, n: i64)
    ensures
        final(out)@ == old(out)@ + int_text(n as int),
{
    if n < 0 {
        proof { reveal_strlit("-"); }
        out.append("-");
        let m: u64 = (-(n as i128)) as u64;
        append_decimal(out, m);
        assert(final(out)@ =~= old(out)@ + int_text(n as int));
    } else {
        append_decimal(out, n as u64);
    }
}

/// Appends `s` escaped for a double-quoted string.
pub fn append_escaped(out: &mut String, s: &str)
    ensures
        final(out)@ == old(out)@ + escaped(s@),
{
    let n = s.unicode_len();
    let mut i: usize = 0;
    while i < n
        invariant
            n == s@.len(),
            i <= n,
            out@ == old(out)@ + escaped(s@.subrange(0, i as int)),
        decreases n - i,
    {
        let c = s.get_char(i);
        let ghost before = out@;
        if c == '"' {
            proof { reveal_strlit("\\\""); }
            out.append("\\\"");
        } else if c == '\\' {
            proof { reveal_strlit("\\\\"); }
            out.append("\\\\");
        } else if (c as u32) < 0x20 || (c as u32) == 0x7f {
            proof { reveal_strlit("\\u00"); }
            out.append("\\u00");
            out.append(hex_str((c as u32) / 16));
            out.append(hex_str((c as u32) % 16));
        } else {
            out.append(s.substring_char(i, i + 1));
        }
        proof {
            let prefix = s@.subrange(0, i as int + 1);
            assert(prefix.drop_last() =~= s@.subrange(0, i as int));
            assert(prefix.last() == c);
            assert(out@ =~= before + escape_char(c));
        }
        i = i + 1;
    }
    assert(s@.subrange(0, n as int) =~= s@);
}

fn append_field(out: &mut String, key: &str, v: Option<i64>)
    ensures
        final(out)@ == old(out)@ + field_line(key@, v),
{
    match v {
        Some(x) => {
            out.append(key);
            append_int(out, x);
            out.append("\n");
            assert(final(out)@ =~= old(out)@ + field_line(key@, v));
        },
        None => {
            assert(final(out)@ =~= old(out)@ + field_line(key@, v));
        },
    }
}

fn append_record(out: &mut String, g: &GameRecord)
    ensures
        final(out)@ == old(out)@ + record_text(*g),
{
    out.append("[[games]]\nname = \"");
    append_escaped(out, g.name.as_str());
    out.append("\"\n");
    append_field(out, "min_players = ", g.min_players);
    append_field(out, "max_players = ", g.max_players);
    append_field(out, "playtime = ", g.playtime);
    append_field(out, "year = ", g.year);
    out.append("\n");
    assert(final(out)@ =~= old(out)@ + record_text(*g));
}

/// Writes the records as a TOML document, one table per record, absent
/// fields left out; never fails.
pub fn serialize(records: &Vec<GameRecord>) -> (r: String)
    ensures
        r@ == document(records@),
{
    if records.len() == 0 {
        return String::from_str("games = []\n");
    }
    let mut out = String::new();
    let mut i: usize = 0;
    while i < records.len()
        invariant
            i <= records@.len(),
            out@ == records_text(records@.subrange(0, i as int)),
        decreases records@.len() - i,
    {
        let ghost before = out@;
        append_record(&mut out, &records[i]);
        proof {
            let prefix = records@.subrange(0, i as int + 1);
            assert(prefix.drop_last() =~= records@.subrange(0, i as int));
            assert(prefix.last() == records@[i as int]);
        }
        i = i + 1;
    }
    assert(records@.subrange(0, records@.len() as int) =~= records@);
    out
}

} // verus!
