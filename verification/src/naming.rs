//! The name of the file that a recording goes to:
//! `recordings/output_<device>_<timestamp>.wav`, with `default` for the
//! device where none was selected and the timestamp in decimal.

use vstd::prelude::*;
use vstd::string::StringExecFns;

verus! {

/// The character of one decimal digit.
pub open spec fn digit_char(d: nat) -> char {
    seq!['0', '1', '2', '3', '4', '5', '6', '7', '8', '9'][d as int]
}

/// `n` in decimal, without leading zeros.
pub open spec fn decimal(n: nat) -> Seq<char>
    decreases n,
{
    if n < 10 {
        seq![digit_char(n)]
    } else {
        decimal(n / 10).push(digit_char(n % 10))
    }
}

/// A selected device as mathematics: its identifier's characters.
pub open spec fn selection_view(device_id: Option<String>) -> Option<Seq<char>> {
    match device_id {
        Some(id) => Some(id@),
        None => None,
    }
}

/// The part of the name that stands for the device.
pub open spec fn device_label(device_id: Option<Seq<char>>) -> Seq<char> {
    match device_id {
        Some(id) => id,
        None => "default"@,
    }
}

/// The file name of a recording from `device_id` that started at
/// `timestamp`, seconds since the Unix epoch.
pub open spec fn file_name(device_id: Option<Seq<char>>, timestamp: nat) -> Seq<char> {
    "output_"@ + device_label(device_id) + "_"@ + decimal(timestamp) + ".wav"@
}

/// The path of that file, inside the recordings directory.
pub open spec fn output_path(device_id: Option<Seq<char>>, timestamp: nat) -> Seq<char> {
    "recordings/"@ + file_name(device_id, timestamp)
}

fn digit_str(d: u64) -> (s: &'static str)
    requires
        d < 10,
    ensures
        s@ == seq![digit_char(d as nat)],
{
    proof {
        reveal_strlit("0");
        reveal_strlit("1");
        reveal_strlit("2");
        reveal_strlit("3");
        reveal_strlit("4");
        reveal_strlit("5");
        reveal_strlit("6");
        reveal_strlit("7");
        reveal_strlit("8");
        reveal_strlit("9");
    }
    let s = if d == 0 {
        "0"
    } else if d == 1 {
        "1"
    } else if d == 2 {
        "2"
    } else if d == 3 {
        "3"
    } else if d == 4 {
        "4"
    } else if d == 5 {
        "5"
    } else if d == 6 {
        "6"
    } else if d == 7 {
        "7"
    } else if d == 8 {
        "8"
    } else {
        "9"
    };
    assert(s@ =~= seq![digit_char(d as nat)]);
    s
}

/// `n` in decimal.
pub fn decimal_string(n: u64) -> (s: String)
    ensures
        s@ == decimal(n as nat),
    decreases n,
{
    if n < 10 {
        String::from_str(digit_str(n))
    } else {
        let mut s = decimal_string(n / 10);
        s.append(digit_str(n % 10));
        assert(s@ =~= decimal(n as nat));
        s
    }
}

/// The directory that recordings go to.
pub fn recordings_dir() -> (s: String)
    ensures
        s@ == "recordings"@,
{
    String::from_str("recordings")
}

/// The file name of a recording from `device_id` that started at
/// `timestamp`.
pub fn recording_file_name(device_id: &Option<String>, timestamp: u64) -> (s: String)
    ensures
        s@ == file_name(selection_view(*device_id), timestamp as nat),
{
    let mut s = String::from_str("output_");
    match device_id {
        Some(id) => s.append(id.as_str()),
        None => s.append("default"),
    }
    s.append("_");
    let digits = decimal_string(timestamp);
    s.append(digits.as_str());
    s.append(".wav");
    s
}

/// The path of a recording from `device_id` that started at `timestamp`.
pub fn recording_path(device_id: &Option<String>, timestamp: u64) -> (s: String)
    ensures
        s@ == output_path(selection_view(*device_id), timestamp as nat),
{
    let mut s = String::from_str("recordings/");
    let name = recording_file_name(device_id, timestamp);
    s.append(name.as_str());
    s
}

/// A number in decimal has at least one digit.
pub proof fn lemma_decimal_nonempty(n: nat)
    ensures
        decimal(n).len() >= 1,
    decreases n,
{
    if n >= 10 {
        lemma_decimal_nonempty(n / 10);
    }
}

/// Different digits have different characters.
pub proof fn lemma_digit_char_injective(x: nat, y: nat)
    requires
        x < 10,
        y < 10,
        digit_char(x) == digit_char(y),
    ensures
        x == y,
{
    assert(digit_char(0) == '0' && digit_char(1) == '1' && digit_char(2) == '2' && digit_char(3) == '3'
        && digit_char(4) == '4');
    assert(digit_char(5) == '5' && digit_char(6) == '6' && digit_char(7) == '7' && digit_char(8) == '8'
        && digit_char(9) == '9');
}

/// Two numbers with the same decimal digits are the same number.
pub proof fn lemma_decimal_injective(a: nat, b: nat)
    requires
        decimal(a) == decimal(b),
    ensures
        a == b,
    decreases a,
{
    lemma_decimal_nonempty(a / 10);
    lemma_decimal_nonempty(b / 10);
    if a < 10 && b < 10 {
        assert(decimal(a) == seq![digit_char(a)]);
        assert(decimal(b) == seq![digit_char(b)]);
        assert(seq![digit_char(a)][0] == digit_char(a));
        assert(seq![digit_char(b)][0] == digit_char(b));
        lemma_digit_char_injective(a, b);
    } else if a >= 10 && b >= 10 {
        let da = decimal(a / 10);
        let db = decimal(b / 10);
        assert(decimal(a) == da.push(digit_char(a % 10)));
        assert(decimal(b) == db.push(digit_char(b % 10)));
        assert(da.push(digit_char(a % 10)).last() == digit_char(a % 10));
        assert(db.push(digit_char(b % 10)).last() == digit_char(b % 10));
        lemma_digit_char_injective(a % 10, b % 10);
        assert(da =~= decimal(a).drop_last());
        assert(db =~= decimal(b).drop_last());
        lemma_decimal_injective(a / 10, b / 10);
    } else {
        if a < 10 {
            assert(decimal(a) == seq![digit_char(a)]);
            assert(decimal(b) == decimal(b / 10).push(digit_char(b % 10)));
        } else {
            assert(decimal(b) == seq![digit_char(b)]);
            assert(decimal(a) == decimal(a / 10).push(digit_char(a % 10)));
        }
        assert(decimal(a).len() != decimal(b).len());
    }
}

/// Recordings of one device that start at different seconds go to different
/// files.
pub proof fn lemma_paths_differ(device_id: Option<Seq<char>>, first: nat, second: nat)
    requires
        first != second,
    ensures
        file_name(device_id, first) != file_name(device_id, second),
        output_path(device_id, first) != output_path(device_id, second),
{
    let head = "output_"@ + device_label(device_id) + "_"@;
    let tail = ".wav"@;
    let first_digits = decimal(first);
    let second_digits = decimal(second);
    let first_name = file_name(device_id, first);
    let second_name = file_name(device_id, second);
    if first_name == second_name {
        assert(first_name == head + first_digits + tail);
        assert(second_name == head + second_digits + tail);
        assert(first_name.len() == head.len() + first_digits.len() + tail.len());
        assert(second_name.len() == head.len() + second_digits.len() + tail.len());
        assert forall|i: int| 0 <= i < first_digits.len() implies first_digits[i] == second_digits[i] by {
            assert(first_name[head.len() + i] == first_digits[i]);
            assert(second_name[head.len() + i] == second_digits[i]);
        }
        assert(first_digits =~= second_digits);
        lemma_decimal_injective(first, second);
    }
    let dir = "recordings/"@;
    let first_path = output_path(device_id, first);
    let second_path = output_path(device_id, second);
    if first_path == second_path {
        assert(first_path.len() == dir.len() + first_name.len());
        assert(second_path.len() == dir.len() + second_name.len());
        assert forall|i: int| 0 <= i < first_name.len() implies first_name[i] == second_name[i] by {
            assert(first_path[dir.len() + i] == first_name[i]);
            assert(second_path[dir.len() + i] == second_name[i]);
        }
        assert(first_name =~= second_name);
    }
}

} // verus!
