//! The fixed texts of the run protocol: the served suite page's URL (reached
//! through the loopback-resolving bridging hostname, never a literal loopback
//! address, because the certificate only names specific hosts), the injected
//! readiness-polling script, and the farm service's status-report payloads.

use vstd::prelude::*;
use vstd::string::StringExecFns;

verus! {

/// Cadence of the in-page readiness poll, in milliseconds.
pub const POLL_INTERVAL_MS: u64 = 10;

pub open spec fn spec_digit_char(d: nat) -> char {
    if d == 0 {
        '0'
    } else if d == 1 {
        '1'
    } else if d == 2 {
        '2'
    } else if d == 3 {
        '3'
    } else if d == 4 {
        '4'
    } else if d == 5 {
        '5'
    } else if d == 6 {
        '6'
    } else if d == 7 {
        '7'
    } else if d == 8 {
        '8'
    } else {
        '9'
    }
}

/// The usual decimal rendering of a number, most significant digit first,
/// with no leading zero except for the number zero itself.
pub open spec fn spec_decimal(n: nat) -> Seq<char>
    decreases n,
{
    if n < 10 {
        seq![spec_digit_char(n)]
    } else {
        spec_decimal(n / 10).push(spec_digit_char(n % 10))
    }
}

fn digit_str(d: u64) -> (r: &'static str)
    requires
        d < 10,
    ensures
        r@ == seq![spec_digit_char(d as nat)],
{
    proof {
        reveal_strlit("0");
        reveal_strlit("1");
        reveal_strlit("2");
        reveal_strlit("3");
        reveal_strlit("4");
        reveal_strlit("5");
        reveal_strlit("6");
        reveal_strlit("7");
        reveal_strlit("8");
        reveal_strlit("9");
    }
    let r: &'static str = if d == 0 {
        "0"
    } else if d == 1 {
        "1"
    } else if d == 2 {
        "2"
    } else if d == 3 {
        "3"
    } else if d == 4 {
        "4"
    } else if d == 5 {
        "5"
    } else if d == 6 {
        "6"
    } else if d == 7 {
        "7"
    } else if d == 8 {
        "8"
    } else {
        "9"
    };
    proof {
        assert(r@ =~= seq![spec_digit_char(d as nat)]);
    }
    r
}

fn push_decimal(n: u64, out: &mut String)
    ensures
        final(out)@ == old(out)@ + spec_decimal(n as nat),
    decreases n,
{
    if n >= 10 {
        proof {
            assert(n / 10 < n) by (nonlinear_arith)
                requires
                    n >= 10,
            ;
        }
        push_decimal(n / 10, out);
    }
    let d: u64 = n % 10;
    out.append(digit_str(d));
    proof {
        assert(final(out)@ =~= old(out)@ + spec_decimal(n as nat));
    }
}

/// Render a number in decimal, exactly as `spec_decimal` says.
pub fn decimal_string(n: u64) -> (r: String)
    ensures
        r@ == spec_decimal(n as nat),
{
    let mut s = String::new();
    push_decimal(n, &mut s);
    proof {
        assert(s@ =~= spec_decimal(n as nat));
    }
    s
}

/// The suite entry page's URL on the given port. `bs-local.com` resolves to
/// the loopback address; the self-signed certificate names it, so the
/// encrypted transport stays valid where a literal loopback address would
/// not be.
pub open spec fn spec_suite_url(port: nat) -> Seq<char> {
    "https://bs-local.com:"@ + spec_decimal(port) + "/zaplib/web/test_suite"@
}

pub fn suite_url(port: u16) -> (r: String)
    ensures
        r@ == spec_suite_url(port as nat),
{
    let mut s = String::from_str("https://bs-local.com:");
    push_decimal(port as u64, &mut s);
    s.append("/zaplib/web/test_suite");
    proof {
        assert(s@ =~= spec_suite_url(port as nat));
    }
    s
}

/// The address the asset server binds, on every local interface.
pub open spec fn spec_bind_address(port: nat) -> Seq<char> {
    "0.0.0.0:"@ + spec_decimal(port)
}

pub fn bind_address(port: u16) -> (r: String)
    ensures
        r@ == spec_bind_address(port as nat),
{
    let mut s = String::from_str("0.0.0.0:");
    push_decimal(port as u64, &mut s);
    proof {
        assert(s@ =~= spec_bind_address(port as nat));
    }
    s
}

/// The injected readiness-polling script: the remote side re-checks every 10
/// milliseconds for the well-known global entry point, then invokes it and
/// resolves with the success sentinel or the failure's stack.
pub open spec fn spec_poll_script() -> Seq<char> {
    "const done = arguments[0];\nconst interval = setInterval(() => {\n  if (window.runAllTests3x) {\n    clearInterval(interval);\n    window.runAllTests3x().then(() => done('SUCCESS'), (err) => done(err.stack));\n  }\n}, 10);\n"@
}

pub fn poll_script() -> (r: &'static str)
    ensures
        r@ == spec_poll_script(),
{
    "const done = arguments[0];\nconst interval = setInterval(() => {\n  if (window.runAllTests3x) {\n    clearInterval(interval);\n    window.runAllTests3x().then(() => done('SUCCESS'), (err) => done(err.stack));\n  }\n}, 10);\n"
}

/// The farm service's session-scoped status report: a provider-recognised
/// script carrying `{action: "setSessionStatus", arguments: {status, reason}}`,
/// issued over the session itself so the service correlates it to that exact
/// session instance.
pub open spec fn spec_farm_status_script(passed: bool) -> Seq<char> {
    if passed {
        "browserstack_executor: {\"action\": \"setSessionStatus\", \"arguments\": {\"status\":\"passed\",\"reason\": \"\"}}"@
    } else {
        "browserstack_executor: {\"action\": \"setSessionStatus\", \"arguments\": {\"status\":\"failed\",\"reason\": \"\"}}"@
    }
}

pub fn farm_status_script(passed: bool) -> (r: &'static str)
    ensures
        r@ == spec_farm_status_script(passed),
{
    if passed {
        "browserstack_executor: {\"action\": \"setSessionStatus\", \"arguments\": {\"status\":\"passed\",\"reason\": \"\"}}"
    } else {
        "browserstack_executor: {\"action\": \"setSessionStatus\", \"arguments\": {\"status\":\"failed\",\"reason\": \"\"}}"
    }
}

} // verus!
