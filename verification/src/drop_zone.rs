//! Docking by native drag and drop: what a dragged taskbar icon carries and
//! what a dock does with it.
//!
//! An icon carries the id of its window, written in decimal, under the
//! payload type of this desktop. A dock takes a drag only if it carries that
//! type, and on a drop reads the id back. A drop whose payload is missing or
//! is no id is ignored.
use vstd::prelude::*;
use vstd::std_specs::iter::IteratorSpec;
use vstd::string::StringExecFns;

verus! {

broadcast use vstd::string::group_string_axioms;

/// The payload type that marks a drag as one of this desktop.
pub const PAYLOAD_TYPE: &'static str = "application/waw";

/// The payload type as text.
pub open spec fn payload_type() -> Seq<char> {
    "application/waw"@
}

/// The character is one of the ten decimal digits.
pub open spec fn is_digit(c: char) -> bool {
    48 <= c as u32 <= 57
}

/// The digit that stands for a number below ten.
pub open spec fn digit_of(value: nat) -> char
    recommends
        value < 10,
{
    if value == 0 {
        '0'
    } else if value == 1 {
        '1'
    } else if value == 2 {
        '2'
    } else if value == 3 {
        '3'
    } else if value == 4 {
        '4'
    } else if value == 5 {
        '5'
    } else if value == 6 {
        '6'
    } else if value == 7 {
        '7'
    } else if value == 8 {
        '8'
    } else {
        '9'
    }
}

/// Every character of the text is a digit.
pub open spec fn all_digits(text: Seq<char>) -> bool {
    forall|i: int| 0 <= i < text.len() ==> is_digit(#[trigger] text[i])
}

/// The number that a row of digits stands for.
pub open spec fn decimal_value(digits: Seq<char>) -> nat
    decreases digits.len(),
{
    if digits.len() == 0 {
        0
    } else {
        decimal_value(digits.drop_last()) * 10 + (digits.last() as u32 - 48) as nat
    }
}

/// The number written in decimal, without leading zeros.
pub open spec fn decimal(value: nat) -> Seq<char>
    decreases value,
{
    if value < 10 {
        seq![digit_of(value)]
    } else {
        decimal(value / 10).push(digit_of(value % 10))
    }
}

/// The text without a plus sign in front.
pub open spec fn unsigned(text: Seq<char>) -> Seq<char> {
    if text.len() > 0 && text[0] == '+' {
        text.drop_first()
    } else {
        text
    }
}

/// The id that a payload stands for: an optional plus sign and then one or
/// more digits, whose number an id can hold. Any other text is no id.
pub open spec fn parsed_id(text: Seq<char>) -> Option<usize> {
    let digits = unsigned(text);
    if digits.len() > 0 && all_digits(digits) && decimal_value(digits) <= usize::MAX {
        Some(decimal_value(digits) as usize)
    } else {
        None
    }
}

/// The id that a drop delivers: that of its payload, if it has one.
pub open spec fn dropped_id(payload: Option<&str>) -> Option<usize> {
    match payload {
        Some(text) => parsed_id(text@),
        None => None,
    }
}

/// A longer row of digits stands for no smaller number than its beginning.
pub proof fn lemma_decimal_value_grows(digits: Seq<char>, k: int)
    requires
        0 <= k <= digits.len(),
        all_digits(digits),
    ensures
        decimal_value(digits.take(k)) <= decimal_value(digits),
    decreases digits.len(),
{
    if k == digits.len() {
        assert(digits.take(k) =~= digits);
    } else {
        let front = digits.drop_last();
        assert(front.take(k) =~= digits.take(k));
        lemma_decimal_value_grows(front, k);
    }
}

/// Reads an id from a payload.
pub fn parse_payload(payload: &str) -> (id: Option<usize>)
    ensures
        id == parsed_id(payload@),
{
    let mut chars = payload.chars();
    let ghost text = payload@;
    let ghost sign: int = if text.len() > 0 && text[0] == '+' {
        1
    } else {
        0
    };
    let ghost digits = unsigned(text);
    let mut value: usize = 0;
    let mut first: bool = true;
    let mut any_digit: bool = false;
    let ghost mut consumed: int = 0;
    loop
        invariant
            text == payload@,
            digits == unsigned(text),
            digits == text.skip(sign),
            sign == 0 || sign == 1,
            sign == 1 <==> (text.len() > 0 && text[0] == '+'),
            0 <= consumed <= text.len(),
            chars.remaining() == text.skip(consumed),
            first <==> consumed == 0,
            first ==> value == 0 && !any_digit,
            !first ==> sign <= consumed,
            !first ==> all_digits(text.subrange(sign, consumed)),
            !first ==> value == decimal_value(text.subrange(sign, consumed)),
            !first ==> (any_digit <==> sign < consumed),
        decreases text.len() - consumed,
    {
        let ghost before = chars.remaining();
        match chars.next() {
            None => {
                proof {
                    assert(consumed == text.len());
                }
                if any_digit {
                    return Some(value);
                } else {
                    return None;
                }
            },
            Some(c) => {
                proof {
                    assert(before.len() > 0);
                    assert(c == text[consumed]);
                    assert(text.skip(consumed).drop_first() =~= text.skip(consumed + 1));
                }
                if first && c == '+' {
                    first = false;
                    proof {
                        consumed = 1;
                    }
                } else {
                    proof {
                        if first {
                            assert(decimal_value(text.subrange(0, 0)) == 0);
                        }
                    }
                    first = false;
                    let code: u32 = c as u32;
                    if code < 48 || code > 57 {
                        return None;
                    }
                    let digit: usize = (code - 48) as usize;
                    proof {
                        let longer = text.subrange(sign, consumed + 1);
                        assert(longer.drop_last() =~= text.subrange(sign, consumed));
                        assert(longer =~= digits.take(consumed + 1 - sign));
                    }
                    if value > (usize::MAX - digit) / 10 {
                        proof {
                            if all_digits(digits) {
                                lemma_decimal_value_grows(digits, consumed + 1 - sign);
                            }
                        }
                        return None;
                    }
                    value = value * 10 + digit;
                    any_digit = true;
                    proof {
                        consumed = consumed + 1;
                    }
                }
            },
        }
    }
}

/// Reads the id that a drop delivers, if its payload is there and is one.
pub fn read_drop(payload: Option<&str>) -> (id: Option<usize>)
    ensures
        id == dropped_id(payload),
{
    match payload {
        Some(text) => parse_payload(text),
        None => None,
    }
}

/// The digit for a number below ten, as text.
fn digit_text(value: usize) -> (text: &'static str)
    requires
        value < 10,
    ensures
        text@ == seq![digit_of(value as nat)],
{
    proof {
        reveal_strlit("0");
        reveal_strlit("1");
        reveal_strlit("2");
        reveal_strlit("3");
        reveal_strlit("4");
        reveal_strlit("5");
        reveal_strlit("6");
        reveal_strlit("7");
        reveal_strlit("8");
        reveal_strlit("9");
    }
    if value == 0 {
        "0"
    } else if value == 1 {
        "1"
    } else if value == 2 {
        "2"
    } else if value == 3 {
        "3"
    } else if value == 4 {
        "4"
    } else if value == 5 {
        "5"
    } else if value == 6 {
        "6"
    } else if value == 7 {
        "7"
    } else if value == 8 {
        "8"
    } else {
        "9"
    }
}

/// Writes the payload that the icon of a window carries: the id in decimal.
/// A dock reads the same id back from it.
pub fn drag_payload(id: usize) -> (payload: String)
    ensures
        payload@ == decimal(id as nat),
        parsed_id(payload@) == Some(id),
    decreases id,
{
    proof {
        lemma_payload_round_trip(id);
    }
    if id < 10 {
        digit_text(id).to_owned()
    } else {
        let mut payload = drag_payload(id / 10);
        payload.append(digit_text(id % 10));
        payload
    }
}

/// Whether a drag is one of this desktop: whether the types it carries
/// include the payload type.
pub fn accepts_drag(types: &Vec<String>) -> (accepted: bool)
    ensures
        accepted == exists|i: int| 0 <= i < types@.len() && (#[trigger] types@[i])@ == payload_type(),
{
    let wanted: String = PAYLOAD_TYPE.to_owned();
    let mut i: usize = 0;
    while i < types.len()
        invariant
            i <= types@.len(),
            wanted@ == payload_type(),
            forall|k: int| 0 <= k < i ==> (#[trigger] types@[k])@ != payload_type(),
        decreases types@.len() - i,
    {
        if types[i] == wanted {
            return true;
        }
        i = i + 1;
    }
    false
}

/// The decimal form of a number is a row of digits that stands for it.
pub proof fn lemma_decimal_reads_back(value: nat)
    ensures
        decimal(value).len() > 0,
        all_digits(decimal(value)),
        decimal_value(decimal(value)) == value,
    decreases value,
{
    let text = decimal(value);
    if value < 10 {
        assert(decimal_value(text.drop_last()) == 0);
    } else {
        lemma_decimal_reads_back(value / 10);
        let front = decimal(value / 10);
        assert(text.drop_last() =~= front);
    }
}

/// What an icon writes, a dock reads: the payload of an id parses to that
/// id.
pub proof fn lemma_payload_round_trip(id: usize)
    ensures
        parsed_id(decimal(id as nat)) == Some(id),
{
    lemma_decimal_reads_back(id as nat);
}

/// A payload that holds anything but digits behind an optional plus sign is
/// no id.
pub proof fn lemma_malformed_payload_is_no_id(text: Seq<char>, at: int)
    requires
        0 <= at < text.len(),
        !is_digit(text[at]),
        at > 0 || text[0] != '+',
    ensures
        parsed_id(text) is None,
{
    if text[0] == '+' {
        assert(unsigned(text)[at - 1] == text[at]);
    }
}

/// A place of an empty dock onto which a window can be dropped. It is
/// marked while a drag hovers over it.
pub struct DropZone {
    pub over: bool,
}

impl DropZone {
    /// A drop zone that nothing hovers over.
    pub fn create() -> (zone: DropZone)
        ensures
            !zone.over,
    {
        DropZone { over: false }
    }

    /// A drag has entered (`true`) or left (`false`) the zone. The result
    /// says that the zone is to be drawn again.
    pub fn update(&mut self, over: bool) -> (redraw: bool)
        ensures
            final(self).over == over,
            redraw,
    {
        self.over = over;
        true
    }
}

} // verus!
