//! Exports of a book selection: the cell texts, and the CSV, XML and PDF-table
//! layouts around them.
use vstd::prelude::*;
use vstd::string::*;
use crate::json::{get, json_get, opt_ref, JsonNumber, JsonValue};
use crate::catalog::string_items;
use crate::model::texts_of;
use crate::text::{
    contains_exec, contains_text, decimal, lemma_double_then_collapse, lemma_replaced_char_source, ends_with, ends_with_exec, i64_decimal, join, joined,
    lower_cased, replace_all, replaced, signed_decimal, str_eq, to_lower, to_upper, u64_decimal,
    upper_cased, is_ascii_text, ascii_upper_text,
};
use crate::time::{
    date_pattern, date_text, datetime_pattern, format_calendar_date, format_zoned, parse_iso_date,
    parse_rfc3339, parsed_iso_date, parsed_rfc3339, zoned_text,
};

verus! {

// ------------------------------------------------------------------
// Dates
// ------------------------------------------------------------------

/// The `strftime` pattern for a date format chosen in the export dialog; ISO dates
/// for any other name.
pub open spec fn pattern_for(format: Seq<char>) -> Seq<char> {
    if format == "dd/mm/yyyy hh:mm:ss"@ {
        "%d/%m/%Y %H:%M:%S"@
    } else if format == "dd/mm/yyyy"@ {
        "%d/%m/%Y"@
    } else if format == "mm/dd/yyyy hh:mm:ss"@ {
        "%m/%d/%Y %H:%M:%S"@
    } else if format == "mm/dd/yyyy"@ {
        "%m/%d/%Y"@
    } else if format == "yyyy-mm-dd hh:mm:ss"@ {
        "%Y-%m-%d %H:%M:%S"@
    } else if format == "yyyy-mm-dd"@ {
        "%Y-%m-%d"@
    } else if format == "DD/MM/YYYY"@ {
        "%d/%m/%Y"@
    } else if format == "MM/DD/YYYY"@ {
        "%m/%d/%Y"@
    } else if format == "YYYY/MM/DD"@ {
        "%Y/%m/%d"@
    } else {
        "%Y-%m-%d"@
    }
}

/// A date text in the chosen format: an RFC 3339 instant formatted in its own
/// offset, a `YYYY-MM-DD` date formatted without the time fields, and any other text,
/// or any text without a chosen format, as it is.
pub open spec fn formatted_date(s: Seq<char>, format: Option<Seq<char>>) -> Seq<char> {
    match format {
        Some(f) => match parsed_rfc3339(s) {
            Some(z) => zoned_text(z, pattern_for(f)),
            None => match parsed_iso_date(s) {
                Some(d) => date_text(d, replaced(pattern_for(f), " %H:%M:%S"@, ""@)),
                None => s,
            },
        },
        None => s,
    }
}

fn pattern_for_exec(format: &str) -> (r: &'static str)
    ensures
        r@ == pattern_for(format@),
        datetime_pattern(r@),
{
    if str_eq(format, "dd/mm/yyyy hh:mm:ss") {
        "%d/%m/%Y %H:%M:%S"
    } else if str_eq(format, "dd/mm/yyyy") {
        "%d/%m/%Y"
    } else if str_eq(format, "mm/dd/yyyy hh:mm:ss") {
        "%m/%d/%Y %H:%M:%S"
    } else if str_eq(format, "mm/dd/yyyy") {
        "%m/%d/%Y"
    } else if str_eq(format, "yyyy-mm-dd hh:mm:ss") {
        "%Y-%m-%d %H:%M:%S"
    } else if str_eq(format, "yyyy-mm-dd") {
        "%Y-%m-%d"
    } else if str_eq(format, "DD/MM/YYYY") {
        "%d/%m/%Y"
    } else if str_eq(format, "MM/DD/YYYY") {
        "%m/%d/%Y"
    } else if str_eq(format, "YYYY/MM/DD") {
        "%Y/%m/%d"
    } else {
        "%Y-%m-%d"
    }
}

// ------------------------------------------------------------------
// Laws of date formats
// ------------------------------------------------------------------

/// What a format name spells: `yyyy` or `YYYY` the four-digit year (`%Y`), `dd` or
/// `DD` the day (`%d`), `mm` or `MM` the month (`%m`) before the hours and the minutes
/// (`%M`) after them, `hh` the hours (`%H`), `ss` the seconds (`%S`); any other
/// character stands for itself.
pub open spec fn spelled_pattern(name: Seq<char>, after_hours: bool) -> Seq<char>
    decreases name.len(),
{
    if name.len() == 0 {
        seq![]
    } else if name.len() >= 4 && (name.take(4) == seq!['y', 'y', 'y', 'y'] || name.take(4) == seq![
        'Y',
        'Y',
        'Y',
        'Y',
    ]) {
        seq!['%', 'Y'] + spelled_pattern(name.skip(4), after_hours)
    } else if name.len() >= 2 && (name.take(2) == seq!['d', 'd'] || name.take(2) == seq!['D', 'D']) {
        seq!['%', 'd'] + spelled_pattern(name.skip(2), after_hours)
    } else if name.len() >= 2 && (name.take(2) == seq!['m', 'm'] || name.take(2) == seq!['M', 'M']) {
        (if after_hours {
            seq!['%', 'M']
        } else {
            seq!['%', 'm']
        }) + spelled_pattern(name.skip(2), after_hours)
    } else if name.len() >= 2 && name.take(2) == seq!['h', 'h'] {
        seq!['%', 'H'] + spelled_pattern(name.skip(2), true)
    } else if name.len() >= 2 && name.take(2) == seq!['s', 's'] {
        seq!['%', 'S'] + spelled_pattern(name.skip(2), after_hours)
    } else {
        seq![name[0]] + spelled_pattern(name.skip(1), after_hours)
    }
}

/// The date formats an export can ask for by name.
pub open spec fn named_format(f: Seq<char>) -> bool {
    ||| f == "dd/mm/yyyy hh:mm:ss"@
    ||| f == "dd/mm/yyyy"@
    ||| f == "mm/dd/yyyy hh:mm:ss"@
    ||| f == "mm/dd/yyyy"@
    ||| f == "yyyy-mm-dd hh:mm:ss"@
    ||| f == "yyyy-mm-dd"@
    ||| f == "DD/MM/YYYY"@
    ||| f == "MM/DD/YYYY"@
    ||| f == "YYYY/MM/DD"@
}

/// A named format renders its fields in the order and with the separators its name
/// spells (`mm/dd/yyyy hh:mm:ss` month, day, year, hours, minutes, seconds); any
/// other name gives ISO dates.
pub proof fn law_formats_follow_their_names(f: Seq<char>)
    ensures
        named_format(f) ==> pattern_for(f) == spelled_pattern(f, false),
        !named_format(f) ==> pattern_for(f) == "%Y-%m-%d"@,
{
    lemma_pattern_for_names(f);
    lemma_spelled_0();
    lemma_spelled_1();
    lemma_spelled_2();
    lemma_spelled_3();
    lemma_spelled_4();
    lemma_spelled_5();
    lemma_spelled_6();
    lemma_spelled_7();
    lemma_spelled_8();
}

proof fn lemma_pattern_for_names(f: Seq<char>)
    ensures
        f == "dd/mm/yyyy hh:mm:ss"@ ==> pattern_for(f) == "%d/%m/%Y %H:%M:%S"@,
        f == "dd/mm/yyyy"@ ==> pattern_for(f) == "%d/%m/%Y"@,
        f == "mm/dd/yyyy hh:mm:ss"@ ==> pattern_for(f) == "%m/%d/%Y %H:%M:%S"@,
        f == "mm/dd/yyyy"@ ==> pattern_for(f) == "%m/%d/%Y"@,
        f == "yyyy-mm-dd hh:mm:ss"@ ==> pattern_for(f) == "%Y-%m-%d %H:%M:%S"@,
        f == "yyyy-mm-dd"@ ==> pattern_for(f) == "%Y-%m-%d"@,
        f == "DD/MM/YYYY"@ ==> pattern_for(f) == "%d/%m/%Y"@,
        f == "MM/DD/YYYY"@ ==> pattern_for(f) == "%m/%d/%Y"@,
        f == "YYYY/MM/DD"@ ==> pattern_for(f) == "%Y/%m/%d"@,
        !named_format(f) ==> pattern_for(f) == "%Y-%m-%d"@,
{
    reveal_strlit("dd/mm/yyyy hh:mm:ss");
    assert("dd/mm/yyyy hh:mm:ss"@.len() == 19);
    assert("dd/mm/yyyy hh:mm:ss"@[0] == 'd');
    reveal_strlit("dd/mm/yyyy");
    assert("dd/mm/yyyy"@.len() == 10);
    assert("dd/mm/yyyy"@[0] == 'd');
    reveal_strlit("mm/dd/yyyy hh:mm:ss");
    assert("mm/dd/yyyy hh:mm:ss"@.len() == 19);
    assert("mm/dd/yyyy hh:mm:ss"@[0] == 'm');
    reveal_strlit("mm/dd/yyyy");
    assert("mm/dd/yyyy"@.len() == 10);
    assert("mm/dd/yyyy"@[0] == 'm');
    reveal_strlit("yyyy-mm-dd hh:mm:ss");
    assert("yyyy-mm-dd hh:mm:ss"@.len() == 19);
    assert("yyyy-mm-dd hh:mm:ss"@[0] == 'y');
    reveal_strlit("yyyy-mm-dd");
    assert("yyyy-mm-dd"@.len() == 10);
    assert("yyyy-mm-dd"@[0] == 'y');
    reveal_strlit("DD/MM/YYYY");
    assert("DD/MM/YYYY"@.len() == 10);
    assert("DD/MM/YYYY"@[0] == 'D');
    reveal_strlit("MM/DD/YYYY");
    assert("MM/DD/YYYY"@.len() == 10);
    assert("MM/DD/YYYY"@[0] == 'M');
    reveal_strlit("YYYY/MM/DD");
    assert("YYYY/MM/DD"@.len() == 10);
    assert("YYYY/MM/DD"@[0] == 'Y');
}

#[verifier::rlimit(40)]
proof fn lemma_spelled_0()
    ensures
        spelled_pattern("dd/mm/yyyy hh:mm:ss"@, false) == "%d/%m/%Y %H:%M:%S"@,
{
    reveal_strlit("dd/mm/yyyy hh:mm:ss");
    reveal_strlit("%d/%m/%Y %H:%M:%S");
    let n = seq!['d', 'd', '/', 'm', 'm', '/', 'y', 'y', 'y', 'y', ' ', 'h', 'h', ':', 'm', 'm', ':', 's', 's'];
    assert("dd/mm/yyyy hh:mm:ss"@ =~= n);
    assert("%d/%m/%Y %H:%M:%S"@ =~= seq!['%', 'd', '/', '%', 'm', '/', '%', 'Y', ' ', '%', 'H', ':', '%', 'M', ':', '%', 'S']);
    assert(n.skip(19) =~= Seq::<char>::empty());
    assert(spelled_pattern(n.skip(19), true) == Seq::<char>::empty());
    assert(n.skip(17) =~= seq!['s', 's']);
    assert(n.skip(17).take(2) =~= seq!['s', 's']);
    assert(n.skip(17).skip(2) =~= n.skip(19));
    assert(spelled_pattern(n.skip(17), true) =~= seq!['%', 'S']);
    assert(n.skip(16) =~= seq![':', 's', 's']);
    assert(n.skip(16).take(2) =~= seq![':', 's']);
    assert(n.skip(16).skip(1) =~= n.skip(17));
    assert(spelled_pattern(n.skip(16), true) =~= seq![':', '%', 'S']);
    assert(n.skip(14) =~= seq!['m', 'm', ':', 's', 's']);
    assert(n.skip(14).take(2) =~= seq!['m', 'm']);
    assert(n.skip(14).take(4) =~= seq!['m', 'm', ':', 's']);
    assert(n.skip(14).skip(2) =~= n.skip(16));
    assert(spelled_pattern(n.skip(14), true) =~= seq!['%', 'M', ':', '%', 'S']);
    assert(n.skip(13) =~= seq![':', 'm', 'm', ':', 's', 's']);
    assert(n.skip(13).take(2) =~= seq![':', 'm']);
    assert(n.skip(13).take(4) =~= seq![':', 'm', 'm', ':']);
    assert(n.skip(13).skip(1) =~= n.skip(14));
    assert(spelled_pattern(n.skip(13), true) =~= seq![':', '%', 'M', ':', '%', 'S']);
    assert(n.skip(11) =~= seq!['h', 'h', ':', 'm', 'm', ':', 's', 's']);
    assert(n.skip(11).take(2) =~= seq!['h', 'h']);
    assert(n.skip(11).take(4) =~= seq!['h', 'h', ':', 'm']);
    assert(n.skip(11).skip(2) =~= n.skip(13));
    assert(spelled_pattern(n.skip(11), false) =~= seq!['%', 'H', ':', '%', 'M', ':', '%', 'S']);
    assert(n.skip(10) =~= seq![' ', 'h', 'h', ':', 'm', 'm', ':', 's', 's']);
    assert(n.skip(10).take(2) =~= seq![' ', 'h']);
    assert(n.skip(10).take(4) =~= seq![' ', 'h', 'h', ':']);
    assert(n.skip(10).skip(1) =~= n.skip(11));
    assert(spelled_pattern(n.skip(10), false) =~= seq![' ', '%', 'H', ':', '%', 'M', ':', '%', 'S']);
    assert(n.skip(6) =~= seq!['y', 'y', 'y', 'y', ' ', 'h', 'h', ':', 'm', 'm', ':', 's', 's']);
    assert(n.skip(6).take(2) =~= seq!['y', 'y']);
    assert(n.skip(6).take(4) =~= seq!['y', 'y', 'y', 'y']);
    assert(n.skip(6).skip(4) =~= n.skip(10));
    assert(spelled_pattern(n.skip(6), false) =~= seq!['%', 'Y', ' ', '%', 'H', ':', '%', 'M', ':', '%', 'S']);
    assert(n.skip(5) =~= seq!['/', 'y', 'y', 'y', 'y', ' ', 'h', 'h', ':', 'm', 'm', ':', 's', 's']);
    assert(n.skip(5).take(2) =~= seq!['/', 'y']);
    assert(n.skip(5).take(4) =~= seq!['/', 'y', 'y', 'y']);
    assert(n.skip(5).skip(1) =~= n.skip(6));
    assert(spelled_pattern(n.skip(5), false) =~= seq!['/', '%', 'Y', ' ', '%', 'H', ':', '%', 'M', ':', '%', 'S']);
    assert(n.skip(3) =~= seq!['m', 'm', '/', 'y', 'y', 'y', 'y', ' ', 'h', 'h', ':', 'm', 'm', ':', 's', 's']);
    assert(n.skip(3).take(2) =~= seq!['m', 'm']);
    assert(n.skip(3).take(4) =~= seq!['m', 'm', '/', 'y']);
    assert(n.skip(3).skip(2) =~= n.skip(5));
    assert(spelled_pattern(n.skip(3), false) =~= seq!['%', 'm', '/', '%', 'Y', ' ', '%', 'H', ':', '%', 'M', ':', '%', 'S']);
    assert(n.skip(2) =~= seq!['/', 'm', 'm', '/', 'y', 'y', 'y', 'y', ' ', 'h', 'h', ':', 'm', 'm', ':', 's', 's']);
    assert(n.skip(2).take(2) =~= seq!['/', 'm']);
    assert(n.skip(2).take(4) =~= seq!['/', 'm', 'm', '/']);
    assert(n.skip(2).skip(1) =~= n.skip(3));
    assert(spelled_pattern(n.skip(2), false) =~= seq!['/', '%', 'm', '/', '%', 'Y', ' ', '%', 'H', ':', '%', 'M', ':', '%', 'S']);
    assert(n.skip(0) =~= seq!['d', 'd', '/', 'm', 'm', '/', 'y', 'y', 'y', 'y', ' ', 'h', 'h', ':', 'm', 'm', ':', 's', 's']);
    assert(n.skip(0).take(2) =~= seq!['d', 'd']);
    assert(n.skip(0).take(4) =~= seq!['d', 'd', '/', 'm']);
    assert(n.skip(0).skip(2) =~= n.skip(2));
    assert(spelled_pattern(n.skip(0), false) =~= seq!['%', 'd', '/', '%', 'm', '/', '%', 'Y', ' ', '%', 'H', ':', '%', 'M', ':', '%', 'S']);
    assert(n.skip(0) =~= n);
}

#[verifier::rlimit(40)]
proof fn lemma_spelled_1()
    ensures
        spelled_pattern("dd/mm/yyyy"@, false) == "%d/%m/%Y"@,
{
    reveal_strlit("dd/mm/yyyy");
    reveal_strlit("%d/%m/%Y");
    let n = seq!['d', 'd', '/', 'm', 'm', '/', 'y', 'y', 'y', 'y'];
    assert("dd/mm/yyyy"@ =~= n);
    assert("%d/%m/%Y"@ =~= seq!['%', 'd', '/', '%', 'm', '/', '%', 'Y']);
    assert(n.skip(10) =~= Seq::<char>::empty());
    assert(spelled_pattern(n.skip(10), false) == Seq::<char>::empty());
    assert(n.skip(6) =~= seq!['y', 'y', 'y', 'y']);
    assert(n.skip(6).take(2) =~= seq!['y', 'y']);
    assert(n.skip(6).take(4) =~= seq!['y', 'y', 'y', 'y']);
    assert(n.skip(6).skip(4) =~= n.skip(10));
    assert(spelled_pattern(n.skip(6), false) =~= seq!['%', 'Y']);
    assert(n.skip(5) =~= seq!['/', 'y', 'y', 'y', 'y']);
    assert(n.skip(5).take(2) =~= seq!['/', 'y']);
    assert(n.skip(5).take(4) =~= seq!['/', 'y', 'y', 'y']);
    assert(n.skip(5).skip(1) =~= n.skip(6));
    assert(spelled_pattern(n.skip(5), false) =~= seq!['/', '%', 'Y']);
    assert(n.skip(3) =~= seq!['m', 'm', '/', 'y', 'y', 'y', 'y']);
    assert(n.skip(3).take(2) =~= seq!['m', 'm']);
    assert(n.skip(3).take(4) =~= seq!['m', 'm', '/', 'y']);
    assert(n.skip(3).skip(2) =~= n.skip(5));
    assert(spelled_pattern(n.skip(3), false) =~= seq!['%', 'm', '/', '%', 'Y']);
    assert(n.skip(2) =~= seq!['/', 'm', 'm', '/', 'y', 'y', 'y', 'y']);
    assert(n.skip(2).take(2) =~= seq!['/', 'm']);
    assert(n.skip(2).take(4) =~= seq!['/', 'm', 'm', '/']);
    assert(n.skip(2).skip(1) =~= n.skip(3));
    assert(spelled_pattern(n.skip(2), false) =~= seq!['/', '%', 'm', '/', '%', 'Y']);
    assert(n.skip(0) =~= seq!['d', 'd', '/', 'm', 'm', '/', 'y', 'y', 'y', 'y']);
    assert(n.skip(0).take(2) =~= seq!['d', 'd']);
    assert(n.skip(0).take(4) =~= seq!['d', 'd', '/', 'm']);
    assert(n.skip(0).skip(2) =~= n.skip(2));
    assert(spelled_pattern(n.skip(0), false) =~= seq!['%', 'd', '/', '%', 'm', '/', '%', 'Y']);
    assert(n.skip(0) =~= n);
}

#[verifier::rlimit(40)]
proof fn lemma_spelled_2()
    ensures
        spelled_pattern("mm/dd/yyyy hh:mm:ss"@, false) == "%m/%d/%Y %H:%M:%S"@,
{
    reveal_strlit("mm/dd/yyyy hh:mm:ss");
    reveal_strlit("%m/%d/%Y %H:%M:%S");
    let n = seq!['m', 'm', '/', 'd', 'd', '/', 'y', 'y', 'y', 'y', ' ', 'h', 'h', ':', 'm', 'm', ':', 's', 's'];
    assert("mm/dd/yyyy hh:mm:ss"@ =~= n);
    assert("%m/%d/%Y %H:%M:%S"@ =~= seq!['%', 'm', '/', '%', 'd', '/', '%', 'Y', ' ', '%', 'H', ':', '%', 'M', ':', '%', 'S']);
    assert(n.skip(19) =~= Seq::<char>::empty());
    assert(spelled_pattern(n.skip(19), true) == Seq::<char>::empty());
    assert(n.skip(17) =~= seq!['s', 's']);
    assert(n.skip(17).take(2) =~= seq!['s', 's']);
    assert(n.skip(17).skip(2) =~= n.skip(19));
    assert(spelled_pattern(n.skip(17), true) =~= seq!['%', 'S']);
    assert(n.skip(16) =~= seq![':', 's', 's']);
    assert(n.skip(16).take(2) =~= seq![':', 's']);
    assert(n.skip(16).skip(1) =~= n.skip(17));
    assert(spelled_pattern(n.skip(16), true) =~= seq![':', '%', 'S']);
    assert(n.skip(14) =~= seq!['m', 'm', ':', 's', 's']);
    assert(n.skip(14).take(2) =~= seq!['m', 'm']);
    assert(n.skip(14).take(4) =~= seq!['m', 'm', ':', 's']);
    assert(n.skip(14).skip(2) =~= n.skip(16));
    assert(spelled_pattern(n.skip(14), true) =~= seq!['%', 'M', ':', '%', 'S']);
    assert(n.skip(13) =~= seq![':', 'm', 'm', ':', 's', 's']);
    assert(n.skip(13).take(2) =~= seq![':', 'm']);
    assert(n.skip(13).take(4) =~= seq![':', 'm', 'm', ':']);
    assert(n.skip(13).skip(1) =~= n.skip(14));
    assert(spelled_pattern(n.skip(13), true) =~= seq![':', '%', 'M', ':', '%', 'S']);
    assert(n.skip(11) =~= seq!['h', 'h', ':', 'm', 'm', ':', 's', 's']);
    assert(n.skip(11).take(2) =~= seq!['h', 'h']);
    assert(n.skip(11).take(4) =~= seq!['h', 'h', ':', 'm']);
    assert(n.skip(11).skip(2) =~= n.skip(13));
    assert(spelled_pattern(n.skip(11), false) =~= seq!['%', 'H', ':', '%', 'M', ':', '%', 'S']);
    assert(n.skip(10) =~= seq![' ', 'h', 'h', ':', 'm', 'm', ':', 's', 's']);
    assert(n.skip(10).take(2) =~= seq![' ', 'h']);
    assert(n.skip(10).take(4) =~= seq![' ', 'h', 'h', ':']);
    assert(n.skip(10).skip(1) =~= n.skip(11));
    assert(spelled_pattern(n.skip(10), false) =~= seq![' ', '%', 'H', ':', '%', 'M', ':', '%', 'S']);
    assert(n.skip(6) =~= seq!['y', 'y', 'y', 'y', ' ', 'h', 'h', ':', 'm', 'm', ':', 's', 's']);
    assert(n.skip(6).take(2) =~= seq!['y', 'y']);
    assert(n.skip(6).take(4) =~= seq!['y', 'y', 'y', 'y']);
    assert(n.skip(6).skip(4) =~= n.skip(10));
    assert(spelled_pattern(n.skip(6), false) =~= seq!['%', 'Y', ' ', '%', 'H', ':', '%', 'M', ':', '%', 'S']);
    assert(n.skip(5) =~= seq!['/', 'y', 'y', 'y', 'y', ' ', 'h', 'h', ':', 'm', 'm', ':', 's', 's']);
    assert(n.skip(5).take(2) =~= seq!['/', 'y']);
    assert(n.skip(5).take(4) =~= seq!['/', 'y', 'y', 'y']);
    assert(n.skip(5).skip(1) =~= n.skip(6));
    assert(spelled_pattern(n.skip(5), false) =~= seq!['/', '%', 'Y', ' ', '%', 'H', ':', '%', 'M', ':', '%', 'S']);
    assert(n.skip(3) =~= seq!['d', 'd', '/', 'y', 'y', 'y', 'y', ' ', 'h', 'h', ':', 'm', 'm', ':', 's', 's']);
    assert(n.skip(3).take(2) =~= seq!['d', 'd']);
    assert(n.skip(3).take(4) =~= seq!['d', 'd', '/', 'y']);
    assert(n.skip(3).skip(2) =~= n.skip(5));
    assert(spelled_pattern(n.skip(3), false) =~= seq!['%', 'd', '/', '%', 'Y', ' ', '%', 'H', ':', '%', 'M', ':', '%', 'S']);
    assert(n.skip(2) =~= seq!['/', 'd', 'd', '/', 'y', 'y', 'y', 'y', ' ', 'h', 'h', ':', 'm', 'm', ':', 's', 's']);
    assert(n.skip(2).take(2) =~= seq!['/', 'd']);
    assert(n.skip(2).take(4) =~= seq!['/', 'd', 'd', '/']);
    assert(n.skip(2).skip(1) =~= n.skip(3));
    assert(spelled_pattern(n.skip(2), false) =~= seq!['/', '%', 'd', '/', '%', 'Y', ' ', '%', 'H', ':', '%', 'M', ':', '%', 'S']);
    assert(n.skip(0) =~= seq!['m', 'm', '/', 'd', 'd', '/', 'y', 'y', 'y', 'y', ' ', 'h', 'h', ':', 'm', 'm', ':', 's', 's']);
    assert(n.skip(0).take(2) =~= seq!['m', 'm']);
    assert(n.skip(0).take(4) =~= seq!['m', 'm', '/', 'd']);
    assert(n.skip(0).skip(2) =~= n.skip(2));
    assert(spelled_pattern(n.skip(0), false) =~= seq!['%', 'm', '/', '%', 'd', '/', '%', 'Y', ' ', '%', 'H', ':', '%', 'M', ':', '%', 'S']);
    assert(n.skip(0) =~= n);
}

#[verifier::rlimit(40)]
proof fn lemma_spelled_3()
    ensures
        spelled_pattern("mm/dd/yyyy"@, false) == "%m/%d/%Y"@,
{
    reveal_strlit("mm/dd/yyyy");
    reveal_strlit("%m/%d/%Y");
    let n = seq!['m', 'm', '/', 'd', 'd', '/', 'y', 'y', 'y', 'y'];
    assert("mm/dd/yyyy"@ =~= n);
    assert("%m/%d/%Y"@ =~= seq!['%', 'm', '/', '%', 'd', '/', '%', 'Y']);
    assert(n.skip(10) =~= Seq::<char>::empty());
    assert(spelled_pattern(n.skip(10), false) == Seq::<char>::empty());
    assert(n.skip(6) =~= seq!['y', 'y', 'y', 'y']);
    assert(n.skip(6).take(2) =~= seq!['y', 'y']);
    assert(n.skip(6).take(4) =~= seq!['y', 'y', 'y', 'y']);
    assert(n.skip(6).skip(4) =~= n.skip(10));
    assert(spelled_pattern(n.skip(6), false) =~= seq!['%', 'Y']);
    assert(n.skip(5) =~= seq!['/', 'y', 'y', 'y', 'y']);
    assert(n.skip(5).take(2) =~= seq!['/', 'y']);
    assert(n.skip(5).take(4) =~= seq!['/', 'y', 'y', 'y']);
    assert(n.skip(5).skip(1) =~= n.skip(6));
    assert(spelled_pattern(n.skip(5), false) =~= seq!['/', '%', 'Y']);
    assert(n.skip(3) =~= seq!['d', 'd', '/', 'y', 'y', 'y', 'y']);
    assert(n.skip(3).take(2) =~= seq!['d', 'd']);
    assert(n.skip(3).take(4) =~= seq!['d', 'd', '/', 'y']);
    assert(n.skip(3).skip(2) =~= n.skip(5));
    assert(spelled_pattern(n.skip(3), false) =~= seq!['%', 'd', '/', '%', 'Y']);
    assert(n.skip(2) =~= seq!['/', 'd', 'd', '/', 'y', 'y', 'y', 'y']);
    assert(n.skip(2).take(2) =~= seq!['/', 'd']);
    assert(n.skip(2).take(4) =~= seq!['/', 'd', 'd', '/']);
    assert(n.skip(2).skip(1) =~= n.skip(3));
    assert(spelled_pattern(n.skip(2), false) =~= seq!['/', '%', 'd', '/', '%', 'Y']);
    assert(n.skip(0) =~= seq!['m', 'm', '/', 'd', 'd', '/', 'y', 'y', 'y', 'y']);
    assert(n.skip(0).take(2) =~= seq!['m', 'm']);
    assert(n.skip(0).take(4) =~= seq!['m', 'm', '/', 'd']);
    assert(n.skip(0).skip(2) =~= n.skip(2));
    assert(spelled_pattern(n.skip(0), false) =~= seq!['%', 'm', '/', '%', 'd', '/', '%', 'Y']);
    assert(n.skip(0) =~= n);
}

#[verifier::rlimit(40)]
proof fn lemma_spelled_4()
    ensures
        spelled_pattern("yyyy-mm-dd hh:mm:ss"@, false) == "%Y-%m-%d %H:%M:%S"@,
{
    reveal_strlit("yyyy-mm-dd hh:mm:ss");
    reveal_strlit("%Y-%m-%d %H:%M:%S");
    let n = seq!['y', 'y', 'y', 'y', '-', 'm', 'm', '-', 'd', 'd', ' ', 'h', 'h', ':', 'm', 'm', ':', 's', 's'];
    assert("yyyy-mm-dd hh:mm:ss"@ =~= n);
    assert("%Y-%m-%d %H:%M:%S"@ =~= seq!['%', 'Y', '-', '%', 'm', '-', '%', 'd', ' ', '%', 'H', ':', '%', 'M', ':', '%', 'S']);
    assert(n.skip(19) =~= Seq::<char>::empty());
    assert(spelled_pattern(n.skip(19), true) == Seq::<char>::empty());
    assert(n.skip(17) =~= seq!['s', 's']);
    assert(n.skip(17).take(2) =~= seq!['s', 's']);
    assert(n.skip(17).skip(2) =~= n.skip(19));
    assert(spelled_pattern(n.skip(17), true) =~= seq!['%', 'S']);
    assert(n.skip(16) =~= seq![':', 's', 's']);
    assert(n.skip(16).take(2) =~= seq![':', 's']);
    assert(n.skip(16).skip(1) =~= n.skip(17));
    assert(spelled_pattern(n.skip(16), true) =~= seq![':', '%', 'S']);
    assert(n.skip(14) =~= seq!['m', 'm', ':', 's', 's']);
    assert(n.skip(14).take(2) =~= seq!['m', 'm']);
    assert(n.skip(14).take(4) =~= seq!['m', 'm', ':', 's']);
    assert(n.skip(14).skip(2) =~= n.skip(16));
    assert(spelled_pattern(n.skip(14), true) =~= seq!['%', 'M', ':', '%', 'S']);
    assert(n.skip(13) =~= seq![':', 'm', 'm', ':', 's', 's']);
    assert(n.skip(13).take(2) =~= seq![':', 'm']);
    assert(n.skip(13).take(4) =~= seq![':', 'm', 'm', ':']);
    assert(n.skip(13).skip(1) =~= n.skip(14));
    assert(spelled_pattern(n.skip(13), true) =~= seq![':', '%', 'M', ':', '%', 'S']);
    assert(n.skip(11) =~= seq!['h', 'h', ':', 'm', 'm', ':', 's', 's']);
    assert(n.skip(11).take(2) =~= seq!['h', 'h']);
    assert(n.skip(11).take(4) =~= seq!['h', 'h', ':', 'm']);
    assert(n.skip(11).skip(2) =~= n.skip(13));
    assert(spelled_pattern(n.skip(11), false) =~= seq!['%', 'H', ':', '%', 'M', ':', '%', 'S']);
    assert(n.skip(10) =~= seq![' ', 'h', 'h', ':', 'm', 'm', ':', 's', 's']);
    assert(n.skip(10).take(2) =~= seq![' ', 'h']);
    assert(n.skip(10).take(4) =~= seq![' ', 'h', 'h', ':']);
    assert(n.skip(10).skip(1) =~= n.skip(11));
    assert(spelled_pattern(n.skip(10), false) =~= seq![' ', '%', 'H', ':', '%', 'M', ':', '%', 'S']);
    assert(n.skip(8) =~= seq!['d', 'd', ' ', 'h', 'h', ':', 'm', 'm', ':', 's', 's']);
    assert(n.skip(8).take(2) =~= seq!['d', 'd']);
    assert(n.skip(8).take(4) =~= seq!['d', 'd', ' ', 'h']);
    assert(n.skip(8).skip(2) =~= n.skip(10));
    assert(spelled_pattern(n.skip(8), false) =~= seq!['%', 'd', ' ', '%', 'H', ':', '%', 'M', ':', '%', 'S']);
    assert(n.skip(7) =~= seq!['-', 'd', 'd', ' ', 'h', 'h', ':', 'm', 'm', ':', 's', 's']);
    assert(n.skip(7).take(2) =~= seq!['-', 'd']);
    assert(n.skip(7).take(4) =~= seq!['-', 'd', 'd', ' ']);
    assert(n.skip(7).skip(1) =~= n.skip(8));
    assert(spelled_pattern(n.skip(7), false) =~= seq!['-', '%', 'd', ' ', '%', 'H', ':', '%', 'M', ':', '%', 'S']);
    assert(n.skip(5) =~= seq!['m', 'm', '-', 'd', 'd', ' ', 'h', 'h', ':', 'm', 'm', ':', 's', 's']);
    assert(n.skip(5).take(2) =~= seq!['m', 'm']);
    assert(n.skip(5).take(4) =~= seq!['m', 'm', '-', 'd']);
    assert(n.skip(5).skip(2) =~= n.skip(7));
    assert(spelled_pattern(n.skip(5), false) =~= seq!['%', 'm', '-', '%', 'd', ' ', '%', 'H', ':', '%', 'M', ':', '%', 'S']);
    assert(n.skip(4) =~= seq!['-', 'm', 'm', '-', 'd', 'd', ' ', 'h', 'h', ':', 'm', 'm', ':', 's', 's']);
    assert(n.skip(4).take(2) =~= seq!['-', 'm']);
    assert(n.skip(4).take(4) =~= seq!['-', 'm', 'm', '-']);
    assert(n.skip(4).skip(1) =~= n.skip(5));
    assert(spelled_pattern(n.skip(4), false) =~= seq!['-', '%', 'm', '-', '%', 'd', ' ', '%', 'H', ':', '%', 'M', ':', '%', 'S']);
    assert(n.skip(0) =~= seq!['y', 'y', 'y', 'y', '-', 'm', 'm', '-', 'd', 'd', ' ', 'h', 'h', ':', 'm', 'm', ':', 's', 's']);
    assert(n.skip(0).take(2) =~= seq!['y', 'y']);
    assert(n.skip(0).take(4) =~= seq!['y', 'y', 'y', 'y']);
    assert(n.skip(0).skip(4) =~= n.skip(4));
    assert(spelled_pattern(n.skip(0), false) =~= seq!['%', 'Y', '-', '%', 'm', '-', '%', 'd', ' ', '%', 'H', ':', '%', 'M', ':', '%', 'S']);
    assert(n.skip(0) =~= n);
}

#[verifier::rlimit(40)]
proof fn lemma_spelled_5()
    ensures
        spelled_pattern("yyyy-mm-dd"@, false) == "%Y-%m-%d"@,
{
    reveal_strlit("yyyy-mm-dd");
    reveal_strlit("%Y-%m-%d");
    let n = seq!['y', 'y', 'y', 'y', '-', 'm', 'm', '-', 'd', 'd'];
    assert("yyyy-mm-dd"@ =~= n);
    assert("%Y-%m-%d"@ =~= seq!['%', 'Y', '-', '%', 'm', '-', '%', 'd']);
    assert(n.skip(10) =~= Seq::<char>::empty());
    assert(spelled_pattern(n.skip(10), false) == Seq::<char>::empty());
    assert(n.skip(8) =~= seq!['d', 'd']);
    assert(n.skip(8).take(2) =~= seq!['d', 'd']);
    assert(n.skip(8).skip(2) =~= n.skip(10));
    assert(spelled_pattern(n.skip(8), false) =~= seq!['%', 'd']);
    assert(n.skip(7) =~= seq!['-', 'd', 'd']);
    assert(n.skip(7).take(2) =~= seq!['-', 'd']);
    assert(n.skip(7).skip(1) =~= n.skip(8));
    assert(spelled_pattern(n.skip(7), false) =~= seq!['-', '%', 'd']);
    assert(n.skip(5) =~= seq!['m', 'm', '-', 'd', 'd']);
    assert(n.skip(5).take(2) =~= seq!['m', 'm']);
    assert(n.skip(5).take(4) =~= seq!['m', 'm', '-', 'd']);
    assert(n.skip(5).skip(2) =~= n.skip(7));
    assert(spelled_pattern(n.skip(5), false) =~= seq!['%', 'm', '-', '%', 'd']);
    assert(n.skip(4) =~= seq!['-', 'm', 'm', '-', 'd', 'd']);
    assert(n.skip(4).take(2) =~= seq!['-', 'm']);
    assert(n.skip(4).take(4) =~= seq!['-', 'm', 'm', '-']);
    assert(n.skip(4).skip(1) =~= n.skip(5));
    assert(spelled_pattern(n.skip(4), false) =~= seq!['-', '%', 'm', '-', '%', 'd']);
    assert(n.skip(0) =~= seq!['y', 'y', 'y', 'y', '-', 'm', 'm', '-', 'd', 'd']);
    assert(n.skip(0).take(2) =~= seq!['y', 'y']);
    assert(n.skip(0).take(4) =~= seq!['y', 'y', 'y', 'y']);
    assert(n.skip(0).skip(4) =~= n.skip(4));
    assert(spelled_pattern(n.skip(0), false) =~= seq!['%', 'Y', '-', '%', 'm', '-', '%', 'd']);
    assert(n.skip(0) =~= n);
}

#[verifier::rlimit(40)]
proof fn lemma_spelled_6()
    ensures
        spelled_pattern("DD/MM/YYYY"@, false) == "%d/%m/%Y"@,
{
    reveal_strlit("DD/MM/YYYY");
    reveal_strlit("%d/%m/%Y");
    let n = seq!['D', 'D', '/', 'M', 'M', '/', 'Y', 'Y', 'Y', 'Y'];
    assert("DD/MM/YYYY"@ =~= n);
    assert("%d/%m/%Y"@ =~= seq!['%', 'd', '/', '%', 'm', '/', '%', 'Y']);
    assert(n.skip(10) =~= Seq::<char>::empty());
    assert(spelled_pattern(n.skip(10), false) == Seq::<char>::empty());
    assert(n.skip(6) =~= seq!['Y', 'Y', 'Y', 'Y']);
    assert(n.skip(6).take(2) =~= seq!['Y', 'Y']);
    assert(n.skip(6).take(4) =~= seq!['Y', 'Y', 'Y', 'Y']);
    assert(n.skip(6).skip(4) =~= n.skip(10));
    assert(spelled_pattern(n.skip(6), false) =~= seq!['%', 'Y']);
    assert(n.skip(5) =~= seq!['/', 'Y', 'Y', 'Y', 'Y']);
    assert(n.skip(5).take(2) =~= seq!['/', 'Y']);
    assert(n.skip(5).take(4) =~= seq!['/', 'Y', 'Y', 'Y']);
    assert(n.skip(5).skip(1) =~= n.skip(6));
    assert(spelled_pattern(n.skip(5), false) =~= seq!['/', '%', 'Y']);
    assert(n.skip(3) =~= seq!['M', 'M', '/', 'Y', 'Y', 'Y', 'Y']);
    assert(n.skip(3).take(2) =~= seq!['M', 'M']);
    assert(n.skip(3).take(4) =~= seq!['M', 'M', '/', 'Y']);
    assert(n.skip(3).skip(2) =~= n.skip(5));
    assert(spelled_pattern(n.skip(3), false) =~= seq!['%', 'm', '/', '%', 'Y']);
    assert(n.skip(2) =~= seq!['/', 'M', 'M', '/', 'Y', 'Y', 'Y', 'Y']);
    assert(n.skip(2).take(2) =~= seq!['/', 'M']);
    assert(n.skip(2).take(4) =~= seq!['/', 'M', 'M', '/']);
    assert(n.skip(2).skip(1) =~= n.skip(3));
    assert(spelled_pattern(n.skip(2), false) =~= seq!['/', '%', 'm', '/', '%', 'Y']);
    assert(n.skip(0) =~= seq!['D', 'D', '/', 'M', 'M', '/', 'Y', 'Y', 'Y', 'Y']);
    assert(n.skip(0).take(2) =~= seq!['D', 'D']);
    assert(n.skip(0).take(4) =~= seq!['D', 'D', '/', 'M']);
    assert(n.skip(0).skip(2) =~= n.skip(2));
    assert(spelled_pattern(n.skip(0), false) =~= seq!['%', 'd', '/', '%', 'm', '/', '%', 'Y']);
    assert(n.skip(0) =~= n);
}

#[verifier::rlimit(40)]
proof fn lemma_spelled_7()
    ensures
        spelled_pattern("MM/DD/YYYY"@, false) == "%m/%d/%Y"@,
{
    reveal_strlit("MM/DD/YYYY");
    reveal_strlit("%m/%d/%Y");
    let n = seq!['M', 'M', '/', 'D', 'D', '/', 'Y', 'Y', 'Y', 'Y'];
    assert("MM/DD/YYYY"@ =~= n);
    assert("%m/%d/%Y"@ =~= seq!['%', 'm', '/', '%', 'd', '/', '%', 'Y']);
    assert(n.skip(10) =~= Seq::<char>::empty());
    assert(spelled_pattern(n.skip(10), false) == Seq::<char>::empty());
    assert(n.skip(6) =~= seq!['Y', 'Y', 'Y', 'Y']);
    assert(n.skip(6).take(2) =~= seq!['Y', 'Y']);
    assert(n.skip(6).take(4) =~= seq!['Y', 'Y', 'Y', 'Y']);
    assert(n.skip(6).skip(4) =~= n.skip(10));
    assert(spelled_pattern(n.skip(6), false) =~= seq!['%', 'Y']);
    assert(n.skip(5) =~= seq!['/', 'Y', 'Y', 'Y', 'Y']);
    assert(n.skip(5).take(2) =~= seq!['/', 'Y']);
    assert(n.skip(5).take(4) =~= seq!['/', 'Y', 'Y', 'Y']);
    assert(n.skip(5).skip(1) =~= n.skip(6));
    assert(spelled_pattern(n.skip(5), false) =~= seq!['/', '%', 'Y']);
    assert(n.skip(3) =~= seq!['D', 'D', '/', 'Y', 'Y', 'Y', 'Y']);
    assert(n.skip(3).take(2) =~= seq!['D', 'D']);
    assert(n.skip(3).take(4) =~= seq!['D', 'D', '/', 'Y']);
    assert(n.skip(3).skip(2) =~= n.skip(5));
    assert(spelled_pattern(n.skip(3), false) =~= seq!['%', 'd', '/', '%', 'Y']);
    assert(n.skip(2) =~= seq!['/', 'D', 'D', '/', 'Y', 'Y', 'Y', 'Y']);
    assert(n.skip(2).take(2) =~= seq!['/', 'D']);
    assert(n.skip(2).take(4) =~= seq!['/', 'D', 'D', '/']);
    assert(n.skip(2).skip(1) =~= n.skip(3));
    assert(spelled_pattern(n.skip(2), false) =~= seq!['/', '%', 'd', '/', '%', 'Y']);
    assert(n.skip(0) =~= seq!['M', 'M', '/', 'D', 'D', '/', 'Y', 'Y', 'Y', 'Y']);
    assert(n.skip(0).take(2) =~= seq!['M', 'M']);
    assert(n.skip(0).take(4) =~= seq!['M', 'M', '/', 'D']);
    assert(n.skip(0).skip(2) =~= n.skip(2));
    assert(spelled_pattern(n.skip(0), false) =~= seq!['%', 'm', '/', '%', 'd', '/', '%', 'Y']);
    assert(n.skip(0) =~= n);
}

#[verifier::rlimit(40)]
proof fn lemma_spelled_8()
    ensures
        spelled_pattern("YYYY/MM/DD"@, false) == "%Y/%m/%d"@,
{
    reveal_strlit("YYYY/MM/DD");
    reveal_strlit("%Y/%m/%d");
    let n = seq!['Y', 'Y', 'Y', 'Y', '/', 'M', 'M', '/', 'D', 'D'];
    assert("YYYY/MM/DD"@ =~= n);
    assert("%Y/%m/%d"@ =~= seq!['%', 'Y', '/', '%', 'm', '/', '%', 'd']);
    assert(n.skip(10) =~= Seq::<char>::empty());
    assert(spelled_pattern(n.skip(10), false) == Seq::<char>::empty());
    assert(n.skip(8) =~= seq!['D', 'D']);
    assert(n.skip(8).take(2) =~= seq!['D', 'D']);
    assert(n.skip(8).skip(2) =~= n.skip(10));
    assert(spelled_pattern(n.skip(8), false) =~= seq!['%', 'd']);
    assert(n.skip(7) =~= seq!['/', 'D', 'D']);
    assert(n.skip(7).take(2) =~= seq!['/', 'D']);
    assert(n.skip(7).skip(1) =~= n.skip(8));
    assert(spelled_pattern(n.skip(7), false) =~= seq!['/', '%', 'd']);
    assert(n.skip(5) =~= seq!['M', 'M', '/', 'D', 'D']);
    assert(n.skip(5).take(2) =~= seq!['M', 'M']);
    assert(n.skip(5).take(4) =~= seq!['M', 'M', '/', 'D']);
    assert(n.skip(5).skip(2) =~= n.skip(7));
    assert(spelled_pattern(n.skip(5), false) =~= seq!['%', 'm', '/', '%', 'd']);
    assert(n.skip(4) =~= seq!['/', 'M', 'M', '/', 'D', 'D']);
    assert(n.skip(4).take(2) =~= seq!['/', 'M']);
    assert(n.skip(4).take(4) =~= seq!['/', 'M', 'M', '/']);
    assert(n.skip(4).skip(1) =~= n.skip(5));
    assert(spelled_pattern(n.skip(4), false) =~= seq!['/', '%', 'm', '/', '%', 'd']);
    assert(n.skip(0) =~= seq!['Y', 'Y', 'Y', 'Y', '/', 'M', 'M', '/', 'D', 'D']);
    assert(n.skip(0).take(2) =~= seq!['Y', 'Y']);
    assert(n.skip(0).take(4) =~= seq!['Y', 'Y', 'Y', 'Y']);
    assert(n.skip(0).skip(4) =~= n.skip(4));
    assert(spelled_pattern(n.skip(0), false) =~= seq!['%', 'Y', '/', '%', 'm', '/', '%', 'd']);
    assert(n.skip(0) =~= n);
}

pub open spec fn opt_string_ref(v: Option<&String>) -> Option<Seq<char>> {
    match v {
        Some(s) => Some(s@),
        None => None,
    }
}

/// Renders a date text in the chosen format (see `formatted_date`).
pub fn format_date(date_str: &str, fmt: Option<&String>) -> (r: String)
    ensures
        r@ == formatted_date(date_str@, opt_string_ref(fmt)),
{
    if let Some(format) = fmt {
        let pattern = pattern_for_exec(format.as_str());
        if let Some(z) = parse_rfc3339(date_str) {
            return format_zoned(z, pattern);
        }
        if let Some(d) = parse_iso_date(date_str) {
            proof {
                reveal_strlit(" %H:%M:%S");
            }
            let pure = replace_all(pattern, " %H:%M:%S", "");
            assert(date_pattern(pure@));
            return format_calendar_date(d, pure.as_str());
        }
    }
    String::from_str(date_str)
}

// ------------------------------------------------------------------
// Cells
// ------------------------------------------------------------------

/// The text `serde_json` writes for a number.
pub open spec fn number_text(n: JsonNumber) -> Seq<char> {
    match n {
        JsonNumber::PosInt(u) => decimal(u as nat),
        JsonNumber::NegInt(i) => signed_decimal(i as int),
        JsonNumber::Float(t) => t@,
    }
}

/// Columns whose texts are dates: a name containing `date` or ending in `_at`.
pub open spec fn date_like(col: Seq<char>) -> bool {
    contains_text(col, "date"@) || ends_with(col, "_at"@)
}

/// The text of a book's field in an export: strings as they are (dates in the chosen
/// format), the strings of an array joined by `, `, numbers in decimal, booleans as
/// `Yes` or `No`, and nothing for anything else.
pub open spec fn cell_text(col: Seq<char>, v: Option<JsonValue>, format: Option<Seq<char>>) -> Seq<
    char,
> {
    match v {
        Some(JsonValue::Str(s)) => if date_like(col) {
            formatted_date(s@, format)
        } else {
            s@
        },
        Some(JsonValue::Array(items)) => joined(string_items(items@), ", "@),
        Some(JsonValue::Number(n)) => number_text(n),
        Some(JsonValue::Bool(b)) => if b {
            "Yes"@
        } else {
            "No"@
        },
        _ => Seq::empty(),
    }
}

fn string_items_of(items: &Vec<JsonValue>) -> (r: Vec<String>)
    ensures
        texts_of(r@) == string_items(items@),
{
    let mut out: Vec<String> = Vec::new();
    let n = items.len();
    let mut i: usize = 0;
    while i < n
        invariant
            n == items@.len(),
            i <= n,
            texts_of(out@) == string_items(items@.take(i as int)),
        decreases n - i,
    {
        assert(items@.take(i + 1).drop_last() =~= items@.take(i as int));
        assert(items@.take(i + 1).last() == items@[i as int]);
        match &items[i] {
            JsonValue::Str(s) => {
                let c = s.clone();
                out.push(c);
                assert(texts_of(out@) =~= texts_of(out@.drop_last()).push(c@));
            },
            _ => {},
        }
        i = i + 1;
    }
    assert(items@.take(n as int) =~= items@);
    out
}

/// The export text of the field `col` of a book.
pub fn cell_text_exec(col: &str, v: Option<&JsonValue>, fmt: Option<&String>) -> (r: String)
    ensures
        r@ == cell_text(col@, opt_ref(v), opt_string_ref(fmt)),
{
    match v {
        Some(JsonValue::Str(s)) => {
            if contains_exec(col, "date") || ends_with_exec(col, "_at") {
                format_date(s.as_str(), fmt)
            } else {
                s.clone()
            }
        },
        Some(JsonValue::Array(items)) => {
            let strings = string_items_of(items);
            join(&strings, ", ")
        },
        Some(JsonValue::Number(n)) => match n {
            JsonNumber::PosInt(u) => u64_decimal(*u),
            JsonNumber::NegInt(i) => i64_decimal(*i),
            JsonNumber::Float(t) => t.clone(),
        },
        Some(JsonValue::Bool(b)) => if *b {
            String::from_str("Yes")
        } else {
            String::from_str("No")
        },
        _ => String::new(),
    }
}

// ------------------------------------------------------------------
// Columns and labels
// ------------------------------------------------------------------

/// The columns without `cover_url` (covers are not exported).
pub open spec fn without_cover(cols: Seq<Seq<char>>) -> Seq<Seq<char>>
    decreases cols.len(),
{
    if cols.len() == 0 {
        seq![]
    } else if cols.last() == "cover_url"@ {
        without_cover(cols.drop_last())
    } else {
        without_cover(cols.drop_last()).push(cols.last())
    }
}

/// The exported columns: the requested ones without `cover_url`, or the defaults when
/// none are requested.
pub open spec fn requested_columns(cols: Seq<Seq<char>>, defaults: Seq<Seq<char>>) -> Seq<Seq<char>> {
    if cols.len() == 0 {
        defaults
    } else {
        without_cover(cols)
    }
}

/// Default columns of the CSV and XML exports.
pub open spec fn table_defaults() -> Seq<Seq<char>> {
    seq!["id"@, "title"@]
}

/// Default columns of the PDF export.
pub open spec fn pdf_defaults() -> Seq<Seq<char>> {
    seq!["title"@]
}

pub open spec fn label_lookup(labels: Seq<(String, String)>, col: Seq<char>) -> Option<Seq<char>>
    decreases labels.len(),
{
    if labels.len() == 0 {
        None
    } else if labels[0].0@ == col {
        Some(labels[0].1@)
    } else {
        label_lookup(labels.skip(1), col)
    }
}

pub open spec fn labels_view(labels: Option<&Vec<(String, String)>>) -> Option<Seq<(String, String)>> {
    match labels {
        Some(l) => Some(l@),
        None => None,
    }
}

pub open spec fn chosen_label(labels: Option<Seq<(String, String)>>, col: Seq<char>) -> Option<
    Seq<char>,
> {
    match labels {
        Some(l) => label_lookup(l, col),
        None => None,
    }
}

/// A column's heading: its label when one is given, else its name with spaces for
/// underscores, in upper case.
pub open spec fn header_label(labels: Option<Seq<(String, String)>>, col: Seq<char>) -> Seq<char> {
    match chosen_label(labels, col) {
        Some(l) => l,
        None => upper_cased(replaced(col, "_"@, " "@)),
    }
}

pub open spec fn header_labels(labels: Option<Seq<(String, String)>>, cols: Seq<Seq<char>>) -> Seq<
    Seq<char>,
>
    decreases cols.len(),
{
    if cols.len() == 0 {
        seq![]
    } else {
        header_labels(labels, cols.drop_last()).push(header_label(labels, cols.last()))
    }
}

fn without_cover_exec(cols: &Vec<String>) -> (r: Vec<String>)
    ensures
        texts_of(r@) == without_cover(texts_of(cols@)),
{
    let ghost all = texts_of(cols@);
    let mut out: Vec<String> = Vec::new();
    let n = cols.len();
    let mut i: usize = 0;
    while i < n
        invariant
            n == cols@.len(),
            i <= n,
            all == texts_of(cols@),
            texts_of(out@) == without_cover(all.take(i as int)),
        decreases n - i,
    {
        assert(all.take(i + 1).drop_last() =~= all.take(i as int));
        assert(all.take(i + 1).last() == cols@[i as int]@);
        if !str_eq(cols[i].as_str(), "cover_url") {
            let c = cols[i].clone();
            let ghost before = out@;
            out.push(c);
            assert(texts_of(out@) =~= texts_of(before).push(c@));
        }
        i = i + 1;
    }
    assert(all.take(n as int) =~= all);
    out
}

/// The columns of a CSV or XML export.
pub fn table_columns(columns: &Vec<String>) -> (r: Vec<String>)
    ensures
        texts_of(r@) == requested_columns(texts_of(columns@), table_defaults()),
{
    if columns.len() == 0 {
        let mut d: Vec<String> = Vec::new();
        d.push(String::from_str("id"));
        d.push(String::from_str("title"));
        assert(texts_of(d@) =~= table_defaults());
        d
    } else {
        without_cover_exec(columns)
    }
}

/// The columns of a PDF export.
pub fn pdf_columns(columns: &Vec<String>) -> (r: Vec<String>)
    ensures
        texts_of(r@) == requested_columns(texts_of(columns@), pdf_defaults()),
{
    if columns.len() == 0 {
        let mut d: Vec<String> = Vec::new();
        d.push(String::from_str("title"));
        assert(texts_of(d@) =~= pdf_defaults());
        d
    } else {
        without_cover_exec(columns)
    }
}

fn label_lookup_exec(labels: &Vec<(String, String)>, col: &str) -> (r: Option<String>)
    ensures
        crate::model::opt_string_view(r) == label_lookup(labels@, col@),
{
    let n = labels.len();
    let mut i: usize = 0;
    assert(labels@.skip(0) =~= labels@);
    while i < n
        invariant
            n == labels@.len(),
            i <= n,
            label_lookup(labels@, col@) == label_lookup(labels@.skip(i as int), col@),
        decreases n - i,
    {
        assert(labels@.skip(i as int)[0] == labels@[i as int]);
        assert(labels@.skip(i as int).skip(1) =~= labels@.skip(i + 1));
        if str_eq(labels[i].0.as_str(), col) {
            return Some(labels[i].1.clone());
        }
        i = i + 1;
    }
    assert(labels@.skip(n as int).len() == 0);
    None
}

fn chosen_label_exec(labels: Option<&Vec<(String, String)>>, col: &str) -> (r: Option<String>)
    ensures
        crate::model::opt_string_view(r) == chosen_label(labels_view(labels), col@),
{
    match labels {
        Some(l) => label_lookup_exec(l, col),
        None => None,
    }
}

/// The heading of a column in CSV and PDF exports.
pub fn header_label_exec(labels: Option<&Vec<(String, String)>>, col: &str) -> (r: String)
    ensures
        r@ == header_label(labels_view(labels), col@),
        chosen_label(labels_view(labels), col@) is None && is_ascii_text(replaced(col@, "_"@, " "@))
            ==> r@ == ascii_upper_text(replaced(col@, "_"@, " "@)),
{
    match chosen_label_exec(labels, col) {
        Some(l) => l,
        None => {
            proof {
                reveal_strlit("_");
            }
            let spaced = replace_all(col, "_", " ");
            to_upper(spaced.as_str())
        },
    }
}

fn header_labels_exec(labels: Option<&Vec<(String, String)>>, cols: &Vec<String>) -> (r: Vec<String>)
    ensures
        texts_of(r@) == header_labels(labels_view(labels), texts_of(cols@)),
{
    let ghost all = texts_of(cols@);
    let mut out: Vec<String> = Vec::new();
    let n = cols.len();
    let mut i: usize = 0;
    while i < n
        invariant
            n == cols@.len(),
            i <= n,
            all == texts_of(cols@),
            texts_of(out@) == header_labels(labels_view(labels), all.take(i as int)),
        decreases n - i,
    {
        assert(all.take(i + 1).drop_last() =~= all.take(i as int));
        assert(all.take(i + 1).last() == cols@[i as int]@);
        let h = header_label_exec(labels, cols[i].as_str());
        let ghost before = out@;
        out.push(h);
        assert(texts_of(out@) =~= texts_of(before).push(h@));
        i = i + 1;
    }
    assert(all.take(n as int) =~= all);
    out
}

// ------------------------------------------------------------------
// CSV
// ------------------------------------------------------------------

/// A CSV field: in double quotes, with its double quotes doubled.
pub open spec fn csv_quote(s: Seq<char>) -> Seq<char> {
    seq!['"'] + replaced(s, seq!['"'], seq!['"', '"']) + seq!['"']
}

pub open spec fn csv_cells(cols: Seq<Seq<char>>, row: JsonValue, format: Option<Seq<char>>) -> Seq<
    Seq<char>,
>
    decreases cols.len(),
{
    if cols.len() == 0 {
        seq![]
    } else {
        csv_cells(cols.drop_last(), row, format).push(
            csv_quote(cell_text(cols.last(), json_get(row, cols.last()), format)),
        )
    }
}

pub open spec fn csv_rows(cols: Seq<Seq<char>>, rows: Seq<JsonValue>, format: Option<Seq<char>>) -> Seq<
    char,
>
    decreases rows.len(),
{
    if rows.len() == 0 {
        seq![]
    } else {
        csv_rows(cols, rows.drop_last(), format) + joined(csv_cells(cols, rows.last(), format), seq![';'])
            + seq!['\n']
    }
}

/// A CSV export: a byte-order mark, the headings, then one line per book, fields
/// separated by `;`. Without books (their query failed) only the headings.
pub open spec fn csv_document(
    cols: Seq<Seq<char>>,
    labels: Option<Seq<(String, String)>>,
    rows: Option<Seq<JsonValue>>,
    format: Option<Seq<char>>,
) -> Seq<char> {
    seq!['\u{FEFF}'] + joined(header_labels(labels, cols), seq![';']) + seq!['\n'] + match rows {
        Some(r) => csv_rows(cols, r, format),
        None => seq![],
    }
}

pub open spec fn rows_view(rows: Option<&Vec<JsonValue>>) -> Option<Seq<JsonValue>> {
    match rows {
        Some(r) => Some(r@),
        None => None,
    }
}

fn csv_quote_exec(s: &str) -> (r: String)
    ensures
        r@ == csv_quote(s@),
{
    let mut q = String::new();
    q.push('"');
    let mut from = String::new();
    from.push('"');
    let mut to = String::new();
    to.push('"');
    to.push('"');
    let inner = replace_all(s, from.as_str(), to.as_str());
    q.append(inner.as_str());
    q.push('"');
    assert(from@ =~= seq!['"']);
    assert(to@ =~= seq!['"', '"']);
    q
}

fn csv_cells_exec(cols: &Vec<String>, row: &JsonValue, fmt: Option<&String>) -> (r: Vec<String>)
    ensures
        texts_of(r@) == csv_cells(texts_of(cols@), *row, opt_string_ref(fmt)),
{
    let ghost all = texts_of(cols@);
    let mut out: Vec<String> = Vec::new();
    let n = cols.len();
    let mut i: usize = 0;
    while i < n
        invariant
            n == cols@.len(),
            i <= n,
            all == texts_of(cols@),
            texts_of(out@) == csv_cells(all.take(i as int), *row, opt_string_ref(fmt)),
        decreases n - i,
    {
        assert(all.take(i + 1).drop_last() =~= all.take(i as int));
        assert(all.take(i + 1).last() == cols@[i as int]@);
        let cell = cell_text_exec(cols[i].as_str(), get(row, cols[i].as_str()), fmt);
        let q = csv_quote_exec(cell.as_str());
        let ghost before = out@;
        out.push(q);
        assert(texts_of(out@) =~= texts_of(before).push(q@));
        i = i + 1;
    }
    assert(all.take(n as int) =~= all);
    out
}

/// The CSV export of `rows` (the books, as JSON objects), `columns` being the exported
/// columns (see `table_columns`).
pub fn csv_document_exec(
    columns: &Vec<String>,
    labels: Option<&Vec<(String, String)>>,
    rows: Option<&Vec<JsonValue>>,
    fmt: Option<&String>,
) -> (r: String)
    ensures
        r@ == csv_document(texts_of(columns@), labels_view(labels), rows_view(rows), opt_string_ref(fmt)),
{
    let ghost cols = texts_of(columns@);
    let mut semi = String::new();
    semi.push(';');
    let mut doc = String::new();
    doc.push('\u{FEFF}');
    let heads = header_labels_exec(labels, columns);
    let head_line = join(&heads, semi.as_str());
    doc.append(head_line.as_str());
    doc.push('\n');
    let ghost prefix = doc@;
    match rows {
        Some(books) => {
            let n = books.len();
            let mut i: usize = 0;
            while i < n
                invariant
                    n == books@.len(),
                    i <= n,
                    cols == texts_of(columns@),
                    semi@ == seq![';'],
                    doc@ == prefix + csv_rows(cols, books@.take(i as int), opt_string_ref(fmt)),
                decreases n - i,
            {
                assert(books@.take(i + 1).drop_last() =~= books@.take(i as int));
                assert(books@.take(i + 1).last() == books@[i as int]);
                let cells = csv_cells_exec(columns, &books[i], fmt);
                let line = join(&cells, semi.as_str());
                doc.append(line.as_str());
                doc.push('\n');
                i = i + 1;
            }
            assert(books@.take(n as int) =~= books@);
        },
        None => {},
    }
    assert(semi@ =~= seq![';']);
    doc
}

// ------------------------------------------------------------------
// XML
// ------------------------------------------------------------------

/// A field's text with `<` and `>` escaped, and then `&`: the `&` of `&lt;` and `&gt;`
/// is escaped too, so `<` is written `&amp;lt;` and `>` `&amp;gt;`.
pub open spec fn xml_escape(s: Seq<char>) -> Seq<char> {
    replaced(
        replaced(replaced(s, seq!['<'], "&lt;"@), seq!['>'], "&gt;"@),
        seq!['&'],
        "&amp;"@,
    )
}

/// A column's element name: its label (or its name), spaces as underscores, in lower case.
pub open spec fn xml_tag(labels: Option<Seq<(String, String)>>, col: Seq<char>) -> Seq<char> {
    let label = match chosen_label(labels, col) {
        Some(l) => l,
        None => col,
    };
    lower_cased(replaced(label, seq![' '], seq!['_']))
}

pub open spec fn xml_fields(
    cols: Seq<Seq<char>>,
    row: JsonValue,
    labels: Option<Seq<(String, String)>>,
    format: Option<Seq<char>>,
) -> Seq<char>
    decreases cols.len(),
{
    if cols.len() == 0 {
        seq![]
    } else {
        let col = cols.last();
        let tag = xml_tag(labels, col);
        xml_fields(cols.drop_last(), row, labels, format) + "    <"@ + tag + ">"@ + xml_escape(
            cell_text(col, json_get(row, col), format),
        ) + "</"@ + tag + ">\n"@
    }
}

pub open spec fn xml_books(
    cols: Seq<Seq<char>>,
    rows: Seq<JsonValue>,
    labels: Option<Seq<(String, String)>>,
    format: Option<Seq<char>>,
) -> Seq<char>
    decreases rows.len(),
{
    if rows.len() == 0 {
        seq![]
    } else {
        xml_books(cols, rows.drop_last(), labels, format) + "  <book>\n"@ + xml_fields(
            cols,
            rows.last(),
            labels,
            format,
        ) + "  </book>\n"@
    }
}

/// An XML export: a `<books>` element with one `<book>` per book, and in it one
/// element per column.
pub open spec fn xml_document(
    cols: Seq<Seq<char>>,
    labels: Option<Seq<(String, String)>>,
    rows: Option<Seq<JsonValue>>,
    format: Option<Seq<char>>,
) -> Seq<char> {
    "<?xml version=\"1.0\" encoding=\"UTF-8\"?>\n<books>\n"@ + match rows {
        Some(r) => xml_books(cols, r, labels, format),
        None => seq![],
    } + "</books>\n"@
}

fn xml_escape_exec(s: &str) -> (r: String)
    ensures
        r@ == xml_escape(s@),
{
    let mut lt = String::new();
    lt.push('<');
    let mut gt = String::new();
    gt.push('>');
    let mut amp = String::new();
    amp.push('&');
    let a = replace_all(s, lt.as_str(), "&lt;");
    let b = replace_all(a.as_str(), gt.as_str(), "&gt;");
    let c = replace_all(b.as_str(), amp.as_str(), "&amp;");
    assert(lt@ =~= seq!['<']);
    assert(gt@ =~= seq!['>']);
    assert(amp@ =~= seq!['&']);
    c
}

fn xml_tag_exec(labels: Option<&Vec<(String, String)>>, col: &str) -> (r: String)
    ensures
        r@ == xml_tag(labels_view(labels), col@),
{
    let label = match chosen_label_exec(labels, col) {
        Some(l) => l,
        None => String::from_str(col),
    };
    let mut sp = String::new();
    sp.push(' ');
    let mut us = String::new();
    us.push('_');
    let t = replace_all(label.as_str(), sp.as_str(), us.as_str());
    assert(sp@ =~= seq![' ']);
    assert(us@ =~= seq!['_']);
    to_lower(t.as_str())
}

fn xml_fields_exec(
    cols: &Vec<String>,
    row: &JsonValue,
    labels: Option<&Vec<(String, String)>>,
    fmt: Option<&String>,
    doc: &mut String,
)
    ensures
        final(doc)@ == old(doc)@ + xml_fields(
            texts_of(cols@),
            *row,
            labels_view(labels),
            opt_string_ref(fmt),
        ),
{
    let ghost all = texts_of(cols@);
    let ghost start = doc@;
    let n = cols.len();
    let mut i: usize = 0;
    while i < n
        invariant
            n == cols@.len(),
            i <= n,
            all == texts_of(cols@),
            doc@ == start + xml_fields(all.take(i as int), *row, labels_view(labels), opt_string_ref(fmt)),
        decreases n - i,
    {
        assert(all.take(i + 1).drop_last() =~= all.take(i as int));
        assert(all.take(i + 1).last() == cols@[i as int]@);
        let col = cols[i].as_str();
        let cell = cell_text_exec(col, get(row, col), fmt);
        let safe = xml_escape_exec(cell.as_str());
        let tag = xml_tag_exec(labels, col);
        doc.append("    <");
        doc.append(tag.as_str());
        doc.append(">");
        doc.append(safe.as_str());
        doc.append("</");
        doc.append(tag.as_str());
        doc.append(">\n");
        i = i + 1;
    }
    assert(all.take(n as int) =~= all);
}

/// The XML export of `rows` (the books, as JSON objects).
pub fn xml_document_exec(
    columns: &Vec<String>,
    labels: Option<&Vec<(String, String)>>,
    rows: Option<&Vec<JsonValue>>,
    fmt: Option<&String>,
) -> (r: String)
    ensures
        r@ == xml_document(texts_of(columns@), labels_view(labels), rows_view(rows), opt_string_ref(fmt)),
{
    let ghost cols = texts_of(columns@);
    let mut doc = String::from_str("<?xml version=\"1.0\" encoding=\"UTF-8\"?>\n<books>\n");
    let ghost prefix = doc@;
    match rows {
        Some(books) => {
            let n = books.len();
            let mut i: usize = 0;
            while i < n
                invariant
                    n == books@.len(),
                    i <= n,
                    cols == texts_of(columns@),
                    doc@ == prefix + xml_books(
                        cols,
                        books@.take(i as int),
                        labels_view(labels),
                        opt_string_ref(fmt),
                    ),
                decreases n - i,
            {
                assert(books@.take(i + 1).drop_last() =~= books@.take(i as int));
                assert(books@.take(i + 1).last() == books@[i as int]);
                doc.append("  <book>\n");
                xml_fields_exec(columns, &books[i], labels, fmt, &mut doc);
                doc.append("  </book>\n");
                i = i + 1;
            }
            assert(books@.take(n as int) =~= books@);
        },
        None => {},
    }
    doc.append("</books>\n");
    doc
}

// ------------------------------------------------------------------
// PDF table
// ------------------------------------------------------------------

/// The font size of a PDF export: smaller as the table gets wider.
pub open spec fn pdf_font_size(columns: nat) -> u8 {
    if columns <= 5 {
        10
    } else if columns <= 8 {
        9
    } else if columns <= 12 {
        8
    } else {
        7
    }
}

pub fn pdf_font_size_exec(columns: usize) -> (r: u8)
    ensures
        r == pdf_font_size(columns as nat),
{
    if columns <= 5 {
        10
    } else if columns <= 8 {
        9
    } else if columns <= 12 {
        8
    } else {
        7
    }
}

pub open spec fn plain_cells(cols: Seq<Seq<char>>, row: JsonValue, format: Option<Seq<char>>) -> Seq<
    Seq<char>,
>
    decreases cols.len(),
{
    if cols.len() == 0 {
        seq![]
    } else {
        plain_cells(cols.drop_last(), row, format).push(
            cell_text(cols.last(), json_get(row, cols.last()), format),
        )
    }
}

pub open spec fn plain_rows(cols: Seq<Seq<char>>, rows: Seq<JsonValue>, format: Option<Seq<char>>) -> Seq<
    Seq<Seq<char>>,
>
    decreases rows.len(),
{
    if rows.len() == 0 {
        seq![]
    } else {
        plain_rows(cols, rows.drop_last(), format).push(plain_cells(cols, rows.last(), format))
    }
}

pub open spec fn table_view(t: Seq<Vec<String>>) -> Seq<Seq<Seq<char>>> {
    t.map_values(|row: Vec<String>| texts_of(row@))
}

/// The table of a PDF export: the headings, and the cell texts of each book.
pub fn pdf_table(
    columns: &Vec<String>,
    labels: Option<&Vec<(String, String)>>,
    rows: Option<&Vec<JsonValue>>,
    fmt: Option<&String>,
) -> (r: (Vec<String>, Vec<Vec<String>>))
    ensures
        texts_of(r.0@) == header_labels(labels_view(labels), texts_of(columns@)),
        table_view(r.1@) == match rows_view(rows) {
            Some(b) => plain_rows(texts_of(columns@), b, opt_string_ref(fmt)),
            None => Seq::empty(),
        },
{
    let ghost cols = texts_of(columns@);
    let heads = header_labels_exec(labels, columns);
    let mut body: Vec<Vec<String>> = Vec::new();
    match rows {
        Some(books) => {
            let n = books.len();
            let mut i: usize = 0;
            while i < n
                invariant
                    n == books@.len(),
                    i <= n,
                    cols == texts_of(columns@),
                    table_view(body@) == plain_rows(cols, books@.take(i as int), opt_string_ref(fmt)),
                decreases n - i,
            {
                assert(books@.take(i + 1).drop_last() =~= books@.take(i as int));
                assert(books@.take(i + 1).last() == books@[i as int]);
                let mut cells: Vec<String> = Vec::new();
                let m = columns.len();
                let mut j: usize = 0;
                while j < m
                    invariant
                        m == columns@.len(),
                        j <= m,
                        i < n,
                        n == books@.len(),
                        cols == texts_of(columns@),
                        texts_of(cells@) == plain_cells(cols.take(j as int), books@[i as int], opt_string_ref(fmt)),
                    decreases m - j,
                {
                    assert(cols.take(j + 1).drop_last() =~= cols.take(j as int));
                    assert(cols.take(j + 1).last() == columns@[j as int]@);
                    let col = columns[j].as_str();
                    let c = cell_text_exec(col, get(&books[i], col), fmt);
                    let ghost before = cells@;
                    cells.push(c);
                    assert(texts_of(cells@) =~= texts_of(before).push(c@));
                    j = j + 1;
                }
                assert(cols.take(m as int) =~= cols);
                let ghost before = body@;
                body.push(cells);
                assert(table_view(body@) =~= table_view(before).push(texts_of(cells@)));
                i = i + 1;
            }
            assert(books@.take(n as int) =~= books@);
        },
        None => {
            assert(table_view(body@) =~= Seq::<Seq<Seq<char>>>::empty());
        },
    }
    (heads, body)
}


// ------------------------------------------------------------------
// Laws
// ------------------------------------------------------------------

/// An escaped XML field holds no `<` and no `>`: a cell text can never open or close
/// an element of the export.
pub proof fn law_xml_field_has_no_markup(s: Seq<char>)
    ensures
        !xml_escape(s).contains('<'),
        !xml_escape(s).contains('>'),
{
    reveal_strlit("&lt;");
    reveal_strlit("&gt;");
    reveal_strlit("&amp;");
    let a = replaced(s, seq!['<'], "&lt;"@);
    let b = replaced(a, seq!['>'], "&gt;"@);
    assert(!"&lt;"@.contains('<') && !"&lt;"@.contains('>'));
    assert(!"&gt;"@.contains('<') && !"&gt;"@.contains('>'));
    assert(!"&amp;"@.contains('<') && !"&amp;"@.contains('>'));
    if a.contains('<') {
        lemma_replaced_char_source(s, '<', "&lt;"@, '<');
    }
    if b.contains('<') {
        lemma_replaced_char_source(a, '>', "&gt;"@, '<');
    }
    if b.contains('>') {
        lemma_replaced_char_source(a, '>', "&gt;"@, '>');
    }
    if xml_escape(s).contains('<') {
        lemma_replaced_char_source(b, '&', "&amp;"@, '<');
    }
    if xml_escape(s).contains('>') {
        lemma_replaced_char_source(b, '&', "&amp;"@, '>');
    }
}

/// A CSV field is its text in double quotes, and collapsing the doubled quotes
/// between them gives the text back: every cell reads back as it was written.
pub proof fn law_csv_field_reads_back(s: Seq<char>)
    ensures
        csv_quote(s).len() >= 2,
        csv_quote(s)[0] == '"',
        csv_quote(s).last() == '"',
        replaced(csv_quote(s).subrange(1, csv_quote(s).len() - 1), seq!['"', '"'], seq!['"']) == s,
{
    let inner = replaced(s, seq!['"'], seq!['"', '"']);
    assert(csv_quote(s).subrange(1, csv_quote(s).len() - 1) =~= inner);
    lemma_double_then_collapse(s, '"');
}

/// Covers are never exported: whatever columns are asked for, `cover_url` is not among
/// the exported ones (the defaults hold no cover either), and every exported column
/// was asked for or is a default.
pub proof fn law_cover_never_exported(cols: Seq<Seq<char>>)
    ensures
        !requested_columns(cols, table_defaults()).contains("cover_url"@),
        !requested_columns(cols, pdf_defaults()).contains("cover_url"@),
        forall|c: Seq<char>| #[trigger] without_cover(cols).contains(c) ==> cols.contains(c),
{
    reveal_strlit("cover_url");
    reveal_strlit("id");
    reveal_strlit("title");
    lemma_without_cover(cols);
    assert(!table_defaults().contains("cover_url"@)) by {
        if table_defaults().contains("cover_url"@) {
            let i = choose|i: int| 0 <= i < 2 && table_defaults()[i] == "cover_url"@;
            assert(table_defaults()[i].len() != "cover_url"@.len());
        }
    }
    assert(!pdf_defaults().contains("cover_url"@)) by {
        if pdf_defaults().contains("cover_url"@) {
            assert(pdf_defaults()[0].len() != "cover_url"@.len());
        }
    }
}

proof fn lemma_without_cover(cols: Seq<Seq<char>>)
    ensures
        !without_cover(cols).contains("cover_url"@),
        forall|c: Seq<char>| #[trigger] without_cover(cols).contains(c) ==> cols.contains(c),
    decreases cols.len(),
{
    if cols.len() > 0 {
        lemma_without_cover(cols.drop_last());
        let w = without_cover(cols.drop_last());
        assert forall|c: Seq<char>| #[trigger] without_cover(cols).contains(c) implies cols.contains(c) by {
            let i = choose|i: int| 0 <= i < without_cover(cols).len() && without_cover(cols)[i] == c;
            if i < w.len() {
                assert(w[i] == c);
                assert(w.contains(c));
                let j = choose|j: int| 0 <= j < cols.drop_last().len() && cols.drop_last()[j] == c;
                assert(cols[j] == c);
            } else {
                assert(cols[cols.len() - 1] == c);
            }
        }
        if without_cover(cols).contains("cover_url"@) {
            let i = choose|i: int| 0 <= i < without_cover(cols).len() && without_cover(cols)[i] == "cover_url"@;
            if i < w.len() {
                assert(w[i] == "cover_url"@);
            }
        }
    }
}

/// The font of a PDF export never grows as columns are added.
pub proof fn law_font_shrinks_with_width(narrow: nat, wide: nat)
    requires
        narrow <= wide,
    ensures
        pdf_font_size(wide) <= pdf_font_size(narrow),
        7 <= pdf_font_size(wide) <= 10,
{
}

/// What an export writes for a book's field: `Yes` and `No` for the booleans, a
/// non-negative whole number in decimal, a text unchanged in a column whose name
/// speaks of no date, the strings of a list joined by `, `, and nothing for a missing
/// or null field.
pub proof fn law_cell_texts(col: Seq<char>, v: Option<JsonValue>, format: Option<Seq<char>>)
    ensures
        v == Some(JsonValue::Bool(true)) ==> cell_text(col, v, format) == "Yes"@,
        v == Some(JsonValue::Bool(false)) ==> cell_text(col, v, format) == "No"@,
        (v matches Some(JsonValue::Number(JsonNumber::PosInt(u)))) ==> cell_text(col, v, format)
            == decimal(v->0->Number_0->PosInt_0 as nat),
        (v matches Some(JsonValue::Str(t)) && !contains_text(col, "date"@) && !ends_with(col, "_at"@))
            ==> cell_text(col, v, format) == v->0->Str_0@,
        (v matches Some(JsonValue::Array(items))) ==> cell_text(col, v, format) == joined(
            string_items(v->0->Array_0@),
            ", "@,
        ),
        (v is None || v == Some(JsonValue::Null)) ==> cell_text(col, v, format).len() == 0,
{
}

/// Draws the rules of an export table: the size it was given, and the colour of the
/// line under each row.
pub struct CleanTableDecorator {
    pub num_columns: usize,
    pub num_rows: usize,
}

impl CleanTableDecorator {
    pub fn new() -> (r: Self)
        ensures
            r.num_columns == 0,
            r.num_rows == 0,
    {
        Self { num_columns: 0, num_rows: 0 }
    }

    pub fn set_table_size(&mut self, num_columns: usize, num_rows: usize)
        ensures
            final(self).num_columns == num_columns,
            final(self).num_rows == num_rows,
    {
        self.num_columns = num_columns;
        self.num_rows = num_rows;
    }

    /// The colour (RGB) of the line under a row: black under the heading row, light
    /// grey under the others.
    pub fn rule_color(&self, row: usize) -> (r: (u8, u8, u8))
        ensures
            r == (if row == 0 {
                (0u8, 0u8, 0u8)
            } else {
                (220u8, 220u8, 220u8)
            }),
    {
        if row == 0 {
            (0, 0, 0)
        } else {
            (220, 220, 220)
        }
    }
}

} // verus!
