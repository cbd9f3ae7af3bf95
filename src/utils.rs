use vstd::prelude::*;

verus! {

/// Ten to the power `k`.
pub open spec fn pow10(k: nat) -> nat
    decreases k,
{
    if k == 0 {
        1
    } else {
        10 * pow10((k - 1) as nat)
    }
}

/// The character of a decimal digit.
pub open spec fn digit_char(d: nat) -> char {
    if d == 0 {
        '0'
    } else if d == 1 {
        '1'
    } else if d == 2 {
        '2'
    } else if d == 3 {
        '3'
    } else if d == 4 {
        '4'
    } else if d == 5 {
        '5'
    } else if d == 6 {
        '6'
    } else if d == 7 {
        '7'
    } else if d == 8 {
        '8'
    } else {
        '9'
    }
}

/// How many digits the decimal form of `n` has.
pub open spec fn num_digits(n: nat) -> nat
    decreases n,
{
    if n < 10 {
        1
    } else {
        1 + num_digits(n / 10)
    }
}

/// The lowest `k` decimal digits of `n`, most significant first, zero-padded.
pub open spec fn padded_digits(n: nat, k: nat) -> Seq<char> {
    Seq::new(k, |i: int| digit_char((n / pow10((k - 1 - i) as nat)) % 10))
}

/// The decimal form of `n`, without leading zeros.
pub open spec fn decimal(n: nat) -> Seq<char> {
    padded_digits(n, num_digits(n))
}

/// The request id for a clock reading of `ms` milliseconds: the last nine
/// characters of its decimal form, or all of them where there are fewer.
pub open spec fn request_id_of(ms: nat) -> Seq<char> {
    let d = decimal(ms);
    if d.len() > 9 {
        d.subrange(d.len() - 9, d.len() as int)
    } else {
        d
    }
}

proof fn lemma_pow10_monotone(i: nat, j: nat)
    requires
        i <= j,
    ensures
        pow10(i) <= pow10(j),
    decreases j,
{
    if i < j {
        lemma_pow10_monotone(i, (j - 1) as nat);
    }
}

/// Ten to the power `j`, for `j` up to nine.
fn pow10_u128(j: usize) -> (r: u128)
    requires
        j <= 9,
    ensures
        r == pow10(j as nat),
        r >= 1,
{
    proof {
        lemma_pow10_monotone(0, j as nat);
    }
    let mut p: u128 = 1;
    let mut i: usize = 0;
    while i < j
        invariant
            i <= j <= 9,
            p == pow10(i as nat),
        decreases j - i,
    {
        proof {
            lemma_pow10_monotone((i + 1) as nat, 9);
            reveal_with_fuel(pow10, 10);
        }
        p = p * 10;
        i = i + 1;
    }
    p
}

/// The text of the digit `d`.
fn digit_str(d: u128) -> (r: &'static str)
    requires
        d < 10,
    ensures
        r@ == seq![digit_char(d as nat)],
{
    proof {
        reveal_strlit("0");
        reveal_strlit("1");
        reveal_strlit("2");
        reveal_strlit("3");
        reveal_strlit("4");
        reveal_strlit("5");
        reveal_strlit("6");
        reveal_strlit("7");
        reveal_strlit("8");
        reveal_strlit("9");
    }
    if d == 0 {
        "0"
    } else if d == 1 {
        "1"
    } else if d == 2 {
        "2"
    } else if d == 3 {
        "3"
    } else if d == 4 {
        "4"
    } else if d == 5 {
        "5"
    } else if d == 6 {
        "6"
    } else if d == 7 {
        "7"
    } else if d == 8 {
        "8"
    } else {
        "9"
    }
}

/// The lowest `k` decimal digits of `n`, zero-padded.
fn padded_digits_string(n: u128, k: usize) -> (r: String)
    requires
        1 <= k <= 10,
    ensures
        r@ == padded_digits(n as nat, k as nat),
{
    let mut out = String::new();
    let mut i: usize = 0;
    while i < k
        invariant
            1 <= k <= 10,
            i <= k,
            out@ == padded_digits(n as nat, k as nat).subrange(0, i as int),
        decreases k - i,
    {
        let p = pow10_u128(k - 1 - i);
        let d = (n / p) % 10;
        out.append(digit_str(d));
        assert(out@ =~= padded_digits(n as nat, k as nat).subrange(0, i + 1));
        i = i + 1;
    }
    assert(out@ =~= padded_digits(n as nat, k as nat));
    out
}

/// The number of decimal digits of `n`, where it is under ten; ten otherwise.
fn count_digits_upto_ten(n: u128) -> (r: usize)
    ensures
        r <= 10,
        r < 10 ==> r == num_digits(n as nat),
        r == 10 ==> num_digits(n as nat) >= 10,
{
    let mut m: u128 = n;
    let mut k: usize = 1;
    while m >= 10 && k < 10
        invariant
            k + num_digits(m as nat) - 1 == num_digits(n as nat),
            1 <= k <= 10,
        decreases m,
    {
        m = m / 10;
        k = k + 1;
    }
    k
}

proof fn lemma_num_digits_lower_bound(n: nat, k: nat)
    requires
        k >= 1,
        num_digits(n) > k,
    ensures
        n >= pow10(k),
    decreases n,
{
    reveal_with_fuel(pow10, 2);
    if k > 1 {
        lemma_num_digits_lower_bound(n / 10, (k - 1) as nat);
        assert(n >= 10 * (n / 10)) by (nonlinear_arith);
    }
}

/// The decimal form of `n`.
pub fn decimal_u32(n: u32) -> (r: String)
    ensures
        r@ == decimal(n as nat),
{
    let k = count_digits_upto_ten(n as u128);
    proof {
        if num_digits(n as nat) > 10 {
            lemma_num_digits_lower_bound(n as nat, 10);
            reveal_with_fuel(pow10, 11);
        }
    }
    padded_digits_string(n as u128, k)
}

/// The request id for a clock reading of `ms` milliseconds.
pub fn request_id_from_millis(ms: u128) -> (r: String)
    ensures
        r@ == request_id_of(ms as nat),
{
    let k = count_digits_upto_ten(ms);
    if k > 9 {
        let r = padded_digits_string(ms, 9);
        assert(r@ =~= request_id_of(ms as nat));
        r
    } else {
        padded_digits_string(ms, k)
    }
}

/// `std::time::SystemTime`, a reading of the system clock; carried only.
#[verifier::external_type_specification]
#[verifier::external_body]
pub struct ExSystemTime(std::time::SystemTime);

/// Relies on `std::time::SystemTime::now`: the clock's current reading, of
/// which nothing can be stated.
#[verifier::external_body]
fn system_time_now() -> (r: std::time::SystemTime) {
    std::time::SystemTime::now()
}

/// Relies on `std::time::SystemTime::duration_since` with the Unix epoch: the
/// time elapsed since then, or none for a reading before it.
#[verifier::external_body]
fn since_unix_epoch(t: &std::time::SystemTime) -> (r: Option<core::time::Duration>) {
    t.duration_since(std::time::UNIX_EPOCH).ok()
}

/// Relies on `core::time::Duration::as_millis`: the whole milliseconds in `d`.
#[verifier::external_body]
fn whole_millis(d: &core::time::Duration) -> (r: u128) {
    d.as_millis()
}

/// A short numeric id for a request, taken from the current time. A clock set
/// before the Unix epoch counts as zero.
pub fn request_id() -> (r: String)
    ensures
        exists|ms: nat| r@ == request_id_of(ms),
{
    let now = system_time_now();
    let ms = match since_unix_epoch(&now) {
        Some(d) => whole_millis(&d),
        None => 0,
    };
    request_id_from_millis(ms)
}

} // verus!
