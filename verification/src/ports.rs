//! The bridge's network ports and their text form.
use vstd::prelude::*;

verus! {

/// Environment variable that overrides the bridge's HTTP control port.
pub const HTTP_PORT_VAR: &'static str = "ESPBRIDGE_HTTP_PORT";

/// The HTTP control port unless it is overridden.
pub const DEFAULT_HTTP_PORT: u16 = 80;

/// Environment variable that overrides the bridge's flashing port.
pub const FLASH_PORT_VAR: &'static str = "ESPBRIDGE_FLASH_PORT";

/// The raw flashing TCP port unless it is overridden.
pub const DEFAULT_FLASH_PORT: u16 = 3333;

pub open spec fn is_digit(c: char) -> bool {
    '0' <= c <= '9'
}

/// One or more decimal digits.
pub open spec fn is_decimal(text: Seq<char>) -> bool {
    &&& text.len() > 0
    &&& forall|i: int| 0 <= i < text.len() ==> is_digit(#[trigger] text[i])
}

/// The number that a sequence of decimal digits denotes.
pub open spec fn digits_value(text: Seq<char>) -> int
    decreases text.len(),
{
    if text.len() == 0 {
        0
    } else {
        10 * digits_value(text.drop_last()) + (text.last() as int - '0' as int)
    }
}

/// A text without the one plus sign that may stand in front of a number.
pub open spec fn without_plus(text: Seq<char>) -> Seq<char> {
    if text.len() > 0 && text[0] == '+' {
        text.skip(1)
    } else {
        text
    }
}

/// The port that a text denotes: decimal digits, with at most one plus sign in
/// front, whose value a port can have. Any other text denotes none.
pub open spec fn port_value(text: Seq<char>) -> Option<u16> {
    let digits = without_plus(text);
    if is_decimal(digits) && digits_value(digits) <= u16::MAX {
        Some(digits_value(digits) as u16)
    } else {
        None
    }
}

/// The port in force under an environment variable's value, `None` where the
/// variable has none.
pub open spec fn port_in_force(setting: Option<Seq<char>>, default: u16) -> u16 {
    match setting {
        Some(text) => match port_value(text) {
            Some(port) => port,
            None => default,
        },
        None => default,
    }
}

/// The view of an optional text.
pub open spec fn text_view(text: Option<&str>) -> Option<Seq<char>> {
    match text {
        Some(t) => Some(t@),
        None => None,
    }
}

proof fn lemma_prefix_value(text: Seq<char>, i: int)
    requires
        is_decimal(text),
        0 <= i <= text.len(),
    ensures
        0 <= digits_value(text.take(i)) <= digits_value(text),
    decreases text.len() - i,
{
    lemma_value_nonnegative(text.take(i));
    if i < text.len() {
        assert(text.take(i + 1).drop_last() == text.take(i));
        assert(is_digit(text[i]));
        lemma_prefix_value(text, i + 1);
    } else {
        assert(text.take(i) == text);
    }
}

proof fn lemma_value_nonnegative(digits: Seq<char>)
    requires
        forall|i: int| 0 <= i < digits.len() ==> is_digit(#[trigger] digits[i]),
    ensures
        digits_value(digits) >= 0,
    decreases digits.len(),
{
    if digits.len() > 0 {
        assert(is_digit(digits.last()));
        assert forall|i: int| 0 <= i < digits.len() - 1 implies is_digit(
            #[trigger] digits.drop_last()[i],
        ) by {
            assert(is_digit(digits[i]));
        }
        lemma_value_nonnegative(digits.drop_last());
    }
}

/// The port that a text denotes, if it denotes one.
pub fn parse_port(text: &str) -> (r: Option<u16>)
    ensures
        r == port_value(text@),
{
    let len: usize = text.unicode_len();
    let start: usize = if len > 0 && text.get_char(0) == '+' {
        1
    } else {
        0
    };
    let ghost digits: Seq<char> = without_plus(text@);
    assert(digits == text@.skip(start as int));
    if start == len {
        return None;
    }
    let mut value: u16 = 0;
    let mut i: usize = start;
    while i < len
        invariant
            start <= i <= len,
            start < len,
            len == text@.len(),
            digits == without_plus(text@),
            digits == text@.skip(start as int),
            forall|j: int| 0 <= j < i - start ==> is_digit(#[trigger] digits[j]),
            value == digits_value(digits.take(i - start)),
        decreases len - i,
    {
        let c: char = text.get_char(i);
        assert(digits[i - start] == c);
        if c < '0' || c > '9' {
            assert(!is_digit(digits[i - start]));
            return None;
        }
        let digit: u16 = (c as u32 - '0' as u32) as u16;
        assert(digits.take(i + 1 - start).drop_last() == digits.take(i - start));
        let scaled: Option<u16> = value.checked_mul(10);
        let next: Option<u16> = match scaled {
            Some(v) => v.checked_add(digit),
            None => None,
        };
        match next {
            Some(v) => {
                value = v;
            },
            None => {
                proof {
                    if is_decimal(digits) {
                        lemma_prefix_value(digits, i + 1 - start);
                    }
                }
                return None;
            },
        }
        i += 1;
    }
    assert(digits.take(len - start) == digits);
    Some(value)
}

/// A question for the value of an environment variable that may override a
/// port.
#[derive(Debug)]
pub struct PortQuery {
    /// The variable to read.
    pub variable: &'static str,
    /// The port unless it is overridden.
    pub default: u16,
}

/// A [`PortQuery`], seen as plain values.
pub struct PortQueryView {
    pub variable: Seq<char>,
    pub default: u16,
}

impl View for PortQuery {
    type V = PortQueryView;

    open spec fn view(&self) -> PortQueryView {
        PortQueryView { variable: self.variable@, default: self.default }
    }
}

impl PortQueryView {
    /// The port in force where the variable has the value `setting`.
    pub open spec fn port(self, setting: Option<Seq<char>>) -> u16 {
        port_in_force(setting, self.default)
    }

    /// The port in force in an environment.
    pub open spec fn port_in(self, environment: spec_fn(Seq<char>) -> Option<Seq<char>>) -> u16 {
        self.port(environment(self.variable))
    }
}

/// The question for the bridge's HTTP control port.
pub open spec fn http_port_query() -> PortQueryView {
    PortQueryView { variable: HTTP_PORT_VAR@, default: DEFAULT_HTTP_PORT }
}

/// The question for the bridge's flashing port.
pub open spec fn flash_port_query() -> PortQueryView {
    PortQueryView { variable: FLASH_PORT_VAR@, default: DEFAULT_FLASH_PORT }
}

/// The port that the variable `var` overrides, `default` unless it does.
pub fn env_port(var: &'static str, default: u16) -> (r: PortQuery)
    ensures
        r@ == (PortQueryView { variable: var@, default }),
        r.variable@ == var@,
        r.default == default,
{
    PortQuery { variable: var, default }
}

impl PortQuery {
    /// The port in force: the one that `setting`, the value of the variable,
    /// denotes, or the default where the variable has no value or its value
    /// denotes no port.
    pub fn answered(&self, setting: Option<&str>) -> (r: u16)
        ensures
            r == self@.port(text_view(setting)),
            setting is None ==> r == self.default,
            setting matches Some(text) ==> r == (match port_value(text@) {
                Some(port) => port,
                None => self.default,
            }),
    {
        match setting {
            Some(text) => match parse_port(text) {
                Some(port) => port,
                None => self.default,
            },
            None => self.default,
        }
    }
}

/// The bridge's HTTP control port, overridable by [`HTTP_PORT_VAR`].
pub fn http_port() -> (r: PortQuery)
    ensures
        r@ == http_port_query(),
        r.variable@ == "ESPBRIDGE_HTTP_PORT"@,
        r.default == 80,
{
    env_port(HTTP_PORT_VAR, DEFAULT_HTTP_PORT)
}

/// The bridge's raw flashing TCP port, overridable by [`FLASH_PORT_VAR`].
pub fn flash_port() -> (r: PortQuery)
    ensures
        r@ == flash_port_query(),
        r.variable@ == "ESPBRIDGE_FLASH_PORT"@,
        r.default == 3333,
{
    env_port(FLASH_PORT_VAR, DEFAULT_FLASH_PORT)
}

/// The digit character for a number below ten.
pub open spec fn digit_char(digit: nat) -> char {
    ('0' as nat + digit) as char
}

/// A number in decimal, without leading zeros.
pub open spec fn decimal(n: nat) -> Seq<char>
    decreases n,
{
    if n < 10 {
        seq![digit_char(n)]
    } else {
        decimal(n / 10).push(digit_char(n % 10))
    }
}

fn digit_text(digit: u16) -> (r: &'static str)
    requires
        digit < 10,
    ensures
        r@ == seq![digit_char(digit as nat)],
{
    proof {
        reveal_strlit("0");
        reveal_strlit("1");
        reveal_strlit("2");
        reveal_strlit("3");
        reveal_strlit("4");
        reveal_strlit("5");
        reveal_strlit("6");
        reveal_strlit("7");
        reveal_strlit("8");
        reveal_strlit("9");
    }
    match digit {
        0 => "0",
        1 => "1",
        2 => "2",
        3 => "3",
        4 => "4",
        5 => "5",
        6 => "6",
        7 => "7",
        8 => "8",
        _ => "9",
    }
}

/// The decimal text of a port.
pub fn port_text(port: u16) -> (r: String)
    ensures
        r@ == decimal(port as nat),
    decreases port,
{
    if port < 10 {
        digit_text(port).to_owned()
    } else {
        port_text(port / 10).concat(digit_text(port % 10))
    }
}

proof fn lemma_decimal_digits(n: nat)
    ensures
        is_decimal(decimal(n)),
        digits_value(decimal(n)) == n,
    decreases n,
{
    if n < 10 {
        assert(decimal(n).drop_last() == Seq::<char>::empty());
        assert(digits_value(Seq::<char>::empty()) == 0);
    } else {
        lemma_decimal_digits(n / 10);
        assert(decimal(n).drop_last() == decimal(n / 10));
        assert forall|i: int| 0 <= i < decimal(n).len() implies is_digit(
            #[trigger] decimal(n)[i],
        ) by {
            if i < decimal(n / 10).len() {
                assert(is_digit(decimal(n / 10)[i]));
            }
        }
    }
}

/// Writing a port in decimal and reading the text back gives the port, with or
/// without a plus sign in front. So an environment variable that holds the
/// decimal text of a port puts that port in force, whatever the default.
pub proof fn law_port_text_reads_back(port: u16, default: u16)
    ensures
        port_value(decimal(port as nat)) == Some(port),
        port_value(seq!['+'] + decimal(port as nat)) == Some(port),
        port_in_force(Some(decimal(port as nat)), default) == port,
{
    let text: Seq<char> = decimal(port as nat);
    lemma_decimal_digits(port as nat);
    assert(is_digit(text[0]));
    assert((seq!['+'] + text).skip(1) == text);
}

/// An environment with the value of one variable replaced.
pub open spec fn with_setting(
    environment: spec_fn(Seq<char>) -> Option<Seq<char>>,
    variable: Seq<char>,
    setting: Option<Seq<char>>,
) -> spec_fn(Seq<char>) -> Option<Seq<char>> {
    |name: Seq<char>|
        if name == variable {
            setting
        } else {
            environment(name)
        }
}

/// Each port has its own variable: setting one decides that port, whatever the
/// environment held, and leaves the other port as it was.
pub proof fn law_port_settings_are_independent(
    environment: spec_fn(Seq<char>) -> Option<Seq<char>>,
    setting: Option<Seq<char>>,
)
    ensures
        ({
            let changed = with_setting(environment, HTTP_PORT_VAR@, setting);
            &&& http_port_query().port_in(changed) == port_in_force(setting, DEFAULT_HTTP_PORT)
            &&& flash_port_query().port_in(changed) == flash_port_query().port_in(environment)
        }),
        ({
            let changed = with_setting(environment, FLASH_PORT_VAR@, setting);
            &&& flash_port_query().port_in(changed) == port_in_force(setting, DEFAULT_FLASH_PORT)
            &&& http_port_query().port_in(changed) == http_port_query().port_in(environment)
        }),
{
    reveal_strlit("ESPBRIDGE_HTTP_PORT");
    reveal_strlit("ESPBRIDGE_FLASH_PORT");
    assert(HTTP_PORT_VAR@.len() != FLASH_PORT_VAR@.len());
}

/// The value of decimal digits is read from left to right, each digit weighing
/// a tenth of the one before it.
pub proof fn law_digits_weigh_by_place(text: Seq<char>, digit: char)
    ensures
        digits_value(Seq::<char>::empty()) == 0,
        digits_value(text.push(digit)) == 10 * digits_value(text) + (digit as int - 48),
{
    assert(text.push(digit).drop_last() == text);
    assert(text.push(digit).last() == digit);
}

/// A text denotes a port exactly when it is one or more decimal digits, with at
/// most one plus sign in front, of a value no greater than 65535, and it then
/// denotes that value. Here `digits` is the text without such a sign.
pub proof fn law_port_value_is_the_number_written(text: Seq<char>, digits: Seq<char>)
    requires
        text == seq!['+'] + digits || (text == digits && !(digits.len() > 0 && digits[0] == '+')),
    ensures
        port_value(text) is Some <==> digits.len() > 0 && (forall|i: int|
            0 <= i < digits.len() ==> '0' <= #[trigger] digits[i] <= '9') && digits_value(digits)
            <= 65535,
        port_value(text) matches Some(port) ==> port as int == digits_value(digits),
{
    if text == seq!['+'] + digits {
        assert(text[0] == '+');
        assert(text.skip(1) == digits);
    }
    assert(without_plus(text) == digits);
    if forall|i: int| 0 <= i < digits.len() ==> '0' <= #[trigger] digits[i] <= '9' {
        assert forall|i: int| 0 <= i < digits.len() implies is_digit(#[trigger] digits[i]) by {
            assert('0' <= digits[i] <= '9');
        }
        lemma_value_nonnegative(digits);
    } else {
        let i: int = choose|i: int| 0 <= i < digits.len() && !('0' <= #[trigger] digits[i] <= '9');
        assert(!is_digit(digits[i]));
    }
}

/// The default is in force where nothing is set, and where what is set is no
/// port: not made of digits alone but for one plus sign in front, without any
/// digit, or of a value beyond 65535. Where it is a port, that port is in force
/// whatever the default. Here `digits` is the text without such a sign.
pub proof fn law_default_where_no_port_is_set(text: Seq<char>, digits: Seq<char>, default: u16)
    requires
        text == seq!['+'] + digits || (text == digits && !(digits.len() > 0 && digits[0] == '+')),
    ensures
        port_in_force(None, default) == default,
        port_value(text) is None ==> port_in_force(Some(text), default) == default,
        port_value(text) matches Some(port) ==> port_in_force(Some(text), default) == port,
        (digits.len() > 0 && (forall|i: int|
            0 <= i < digits.len() ==> '0' <= #[trigger] digits[i] <= '9') && digits_value(digits)
            <= 65535) ==> port_in_force(Some(text), default) == digits_value(digits),
        !(digits.len() > 0 && (forall|i: int|
            0 <= i < digits.len() ==> '0' <= #[trigger] digits[i] <= '9') && digits_value(digits)
            <= 65535) ==> port_in_force(Some(text), default) == default,
{
    law_port_value_is_the_number_written(text, digits);
}

/// What [`parse_port`] returns is the number that the text spells. Here
/// `digits` is the text without a plus sign in front.
pub proof fn law_parse_port_reads_decimal(text: &str, digits: Seq<char>, r: Option<u16>)
    requires
        call_ensures(parse_port, (text,), r),
        text@ == seq!['+'] + digits || (text@ == digits && !(digits.len() > 0 && digits[0] == '+')),
    ensures
        r is Some <==> digits.len() > 0 && (forall|i: int|
            0 <= i < digits.len() ==> '0' <= #[trigger] digits[i] <= '9') && digits_value(digits)
            <= 65535,
        r matches Some(port) ==> port as int == digits_value(digits),
{
    law_port_value_is_the_number_written(text@, digits);
}

/// An answer with a value that [`parse_port`] reads as a port is that port. An
/// answer without a value, or with one that it does not read, is the default
/// of the question.
pub proof fn law_answer_is_the_setting_or_the_default(
    query: &PortQuery,
    setting: Option<&str>,
    text: &str,
    read: Option<u16>,
    r: u16,
)
    requires
        call_ensures(PortQuery::answered, (query, setting), r),
        setting is Some ==> setting->0@ == text@,
        call_ensures(parse_port, (text,), read),
    ensures
        setting is None ==> r == query.default,
        setting is Some && read is None ==> r == query.default,
        setting is Some && read is Some ==> Some(r) == read,
{
}

/// The bridge's ports are asked for under their own variables, and unset they
/// are 80 for control and 3333 for flashing.
pub proof fn law_ports_in_an_empty_environment(
    http: PortQuery,
    flash: PortQuery,
    http_answer: u16,
    flash_answer: u16,
)
    requires
        call_ensures(http_port, (), http),
        call_ensures(flash_port, (), flash),
        call_ensures(PortQuery::answered, (&http, None), http_answer),
        call_ensures(PortQuery::answered, (&flash, None), flash_answer),
    ensures
        http.variable@ == "ESPBRIDGE_HTTP_PORT"@,
        flash.variable@ == "ESPBRIDGE_FLASH_PORT"@,
        http_answer == 80,
        flash_answer == 3333,
{
}

/// A number in decimal is made of digits, has no zero in front unless it is
/// zero, and has the number as its value. It has one digit only below ten.
pub proof fn law_decimal_spells_the_number(n: nat)
    ensures
        decimal(n).len() > 0,
        forall|i: int| 0 <= i < decimal(n).len() ==> '0' <= #[trigger] decimal(n)[i] <= '9',
        digits_value(decimal(n)) == n,
        n < 10 <==> decimal(n).len() == 1,
        n > 0 ==> decimal(n)[0] != '0',
    decreases n,
{
    lemma_decimal_digits(n);
    assert forall|i: int| 0 <= i < decimal(n).len() implies '0' <= #[trigger] decimal(n)[i]
        <= '9' by {
        assert(is_digit(decimal(n)[i]));
    }
    if n >= 10 {
        law_decimal_spells_the_number(n / 10);
    }
}

/// Different numbers have different decimal texts.
pub proof fn law_decimal_tells_numbers_apart(a: nat, b: nat)
    ensures
        decimal(a) == decimal(b) <==> a == b,
{
    lemma_decimal_digits(a);
    lemma_decimal_digits(b);
}

/// [`port_text`] writes what [`parse_port`] reads.
pub proof fn law_port_text_parses_back(port: u16, text: String, input: &str, r: Option<u16>)
    requires
        call_ensures(port_text, (port,), text),
        input@ == text@,
        call_ensures(parse_port, (input,), r),
    ensures
        r == Some(port),
        forall|i: int| 0 <= i < text@.len() ==> '0' <= #[trigger] text@[i] <= '9',
        port > 0 ==> text@[0] != '0',
{
    law_port_text_reads_back(port, port);
    law_decimal_spells_the_number(port as nat);
}

} // verus!
