//! The XML-RPC request that the log endpoint posts to a server, and the
//! decimal writing of the integers in it.

use vstd::prelude::*;
use vstd::string::*;
use crate::request_params::LogRequestParams;
use crate::text::push_char;

verus! {

/// The decimal digit character for `d` (`0 <= d < 10`).
pub open spec fn digit_char(d: int) -> char {
    (48 + d) as char
}

/// The decimal digits of `n`, most significant first, without leading zeros
/// (`0` is written as one digit).
pub open spec fn digits(n: nat) -> Seq<char>
    decreases n,
{
    if n < 10 {
        seq![digit_char(n as int)]
    } else {
        digits(n / 10).push(digit_char((n % 10) as int))
    }
}

/// `n` written in decimal, with a leading `-` when it is negative: what
/// formatting an integer with `{}` gives.
pub open spec fn decimal(n: int) -> Seq<char> {
    if n < 0 {
        seq!['-'] + digits((-n) as nat)
    } else {
        digits(n as nat)
    }
}

/// Appends the decimal digits of `m`.
fn push_digits(out: &mut String, m: u32)
    ensures
        final(out)@ == old(out)@ + digits(m as nat),
    decreases m,
{
    if m >= 10 {
        push_digits(out, m / 10);
    }
    let d: u32 = m % 10;
    let c = (48u8 + (d as u8)) as char;
    push_char(out, c);
    proof {
        if m >= 10 {
            assert(old(out)@ + digits(m as nat) =~= old(out)@ + digits((m / 10) as nat) + seq![c]);
        } else {
            assert(old(out)@ + digits(m as nat) =~= old(out)@.push(c));
        }
    }
}

/// Appends `n` written in decimal.
fn push_decimal(out: &mut String, n: i32)
    ensures
        final(out)@ == old(out)@ + decimal(n as int),
{
    if n < 0 {
        push_char(out, '-');
        let m: u32 = (-(n as i64)) as u32;
        push_digits(out, m);
        assert(final(out)@ =~= old(out)@ + decimal(n as int));
    } else {
        push_digits(out, n as u32);
    }
}

/// `n` written in decimal, as formatting it with `{}` writes it.
pub fn decimal_string(n: i32) -> (s: String)
    ensures
        s@ == decimal(n as int),
{
    let mut s = String::new();
    push_decimal(&mut s, n);
    assert(s@ =~= decimal(n as int));
    s
}

/// The parameter element that names the process whose log is read; a log
/// request without a process name has none.
pub open spec fn process_param(process: Seq<char>) -> Seq<char> {
    if process.len() == 0 {
        Seq::empty()
    } else {
        "<param><value><string>"@ + process + "</string></value></param>"@
    }
}

/// The body of the XML-RPC request that reads a log with the supervisor
/// method `method`: the process parameter, if any, then the offset and the
/// length.
pub open spec fn log_request_body_spec(
    method: Seq<char>,
    process: Seq<char>,
    offset: int,
    length: int,
) -> Seq<char> {
    "<?xml version='1.0'?>\n        <methodCall>\n        <methodName>supervisor."@ + method
        + "</methodName>\n        <params>\n        "@ + process_param(process)
        + "\n        <param>\n        <value><int>"@ + decimal(offset)
        + "</int></value>\n        </param>\n        <param>\n        <value><int>"@ + decimal(
        length,
    ) + "</int></value>\n        </param>\n        </params>\n        </methodCall>"@
}

/// The body of the XML-RPC request that reads a log with the supervisor
/// method `method` and the parameters `params`.
pub fn log_request_body(method: &str, params: &LogRequestParams) -> (body: String)
    ensures
        body@ == log_request_body_spec(
            method@,
            params.process@,
            params.offset as int,
            params.length as int,
        ),
{
    let mut body = String::from_str(
        "<?xml version='1.0'?>\n        <methodCall>\n        <methodName>supervisor.",
    );
    body.append(method);
    body.append("</methodName>\n        <params>\n        ");
    let ghost head = body@;
    if !params.process.as_str().is_empty() {
        body.append("<param><value><string>");
        body.append(params.process.as_str());
        body.append("</string></value></param>");
        assert(body@ =~= head + process_param(params.process@));
    } else {
        assert(body@ =~= head + process_param(params.process@));
    }
    body.append("\n        <param>\n        <value><int>");
    push_decimal(&mut body, params.offset);
    body.append("</int></value>\n        </param>\n        <param>\n        <value><int>");
    push_decimal(&mut body, params.length);
    body.append("</int></value>\n        </param>\n        </params>\n        </methodCall>");
    assert(body@ =~= log_request_body_spec(
        method@,
        params.process@,
        params.offset as int,
        params.length as int,
    ));
    body
}

/// The start of a log request body, up to where the process parameter goes.
pub open spec fn log_body_head(method: Seq<char>) -> Seq<char> {
    "<?xml version='1.0'?>\n        <methodCall>\n        <methodName>supervisor."@ + method
        + "</methodName>\n        <params>\n        "@
}

/// The text that opens the offset parameter of a log request.
pub open spec fn offset_open() -> Seq<char> {
    "\n        <param>\n        <value><int>"@
}

/// The text between the offset and the length of a log request.
pub open spec fn offset_to_length() -> Seq<char> {
    "</int></value>\n        </param>\n        <param>\n        <value><int>"@
}

/// A log request body is the body for no process with the process parameter
/// inserted after its head; everything after the process parameter, and so the
/// offset and the length, does not depend on the process. After the head and
/// the process parameter come the offset written in decimal (with its sign)
/// and then the length written in decimal.
pub proof fn lemma_log_body_layout(method: Seq<char>, process: Seq<char>, offset: int, length: int)
    ensures
        ({
            let head = log_body_head(method);
            let rest = log_request_body_spec(method, Seq::empty(), offset, length).skip(
                head.len() as int,
            );
            let o = offset_open() + decimal(offset);
            let ol = o + offset_to_length() + decimal(length);
            &&& log_request_body_spec(method, process, offset, length) == head + process_param(
                process,
            ) + rest
            &&& rest.take(o.len() as int) == o
            &&& rest.take(ol.len() as int) == ol
        }),
{
    let head = log_body_head(method);
    let tail = "</int></value>\n        </param>\n        </params>\n        </methodCall>"@;
    let r = offset_open() + decimal(offset) + offset_to_length() + decimal(length) + tail;
    assert(process_param(Seq::empty()) =~= Seq::<char>::empty());
    assert(log_request_body_spec(method, Seq::empty(), offset, length) =~= head + r);
    assert((head + r).skip(head.len() as int) =~= r);
    assert(log_request_body_spec(method, process, offset, length) =~= head + process_param(process)
        + r);
    let o = offset_open() + decimal(offset);
    let ol = o + offset_to_length() + decimal(length);
    assert(r.take(o.len() as int) =~= o);
    assert(r.take(ol.len() as int) =~= ol);
}

/// The number that a run of decimal digits denotes.
pub open spec fn digits_value(s: Seq<char>) -> int
    decreases s.len(),
{
    if s.len() == 0 {
        0
    } else {
        digits_value(s.drop_last()) * 10 + (s.last() as int - 48)
    }
}

/// The number that a decimal numeral with an optional leading `-` denotes.
pub open spec fn decimal_value(s: Seq<char>) -> int {
    if s.len() > 0 && s[0] == '-' {
        -digits_value(s.skip(1))
    } else {
        digits_value(s)
    }
}

proof fn lemma_digits_value(n: nat)
    ensures
        digits(n).len() > 0,
        forall|i: int| 0 <= i < digits(n).len() ==> '0' <= #[trigger] digits(n)[i] <= '9',
        digits_value(digits(n)) == n,
    decreases n,
{
    if n >= 10 {
        lemma_digits_value(n / 10);
        let d = digits(n / 10);
        assert(digits(n).drop_last() =~= d);
        assert(digits(n).last() as int == 48 + n % 10);
        assert(digits_value(digits(n)) == digits_value(d) * 10 + (digits(n).last() as int - 48));
        assert(n == (n / 10) * 10 + n % 10);
    } else {
        assert(digits(n).drop_last() =~= Seq::<char>::empty());
        assert(digits(n).last() as int == 48 + n);
        assert(digits_value(digits(n)) == digits_value(Seq::<char>::empty()) * 10 + (
        digits(n).last() as int - 48));
    }
}

/// Writing a number in decimal loses nothing: reading the numeral back gives
/// the number, sign included.
pub proof fn lemma_decimal_reads_back(n: int)
    ensures
        decimal_value(decimal(n)) == n,
        decimal(n)[0] == '-' <==> n < 0,
{
    if n < 0 {
        lemma_digits_value((-n) as nat);
        assert(decimal(n).skip(1) =~= digits((-n) as nat));
    } else {
        lemma_digits_value(n as nat);
    }
}

} // verus!
