use vstd::prelude::*;
use vstd::arithmetic::div_mod::lemma_fundamental_div_mod;
use crate::error::BlurError;

verus! {

/// Lowest accepted blur intensity, in tenths: one tenth below this is pulled up.
pub const INTENSITY_MIN_TENTHS: u32 = 10;

/// Highest accepted blur intensity, in tenths: anything above is pulled down.
pub const INTENSITY_MAX_TENTHS: u32 = 100;

/// The values baked into the kernel source at compile time. The intensity is
/// carried in tenths, so the accepted range one to ten maps to ten to one
/// hundred.
#[derive(Clone, Copy, Debug, PartialEq, Eq, Structural)]
pub struct KernelParameters {
    pub width: u32,
    pub height: u32,
    pub intensity_tenths: u32,
}

impl KernelParameters {
    /// Both dimensions positive and the intensity inside the accepted range.
    pub open spec fn wf(self) -> bool {
        &&& self.width > 0
        &&& self.height > 0
        &&& INTENSITY_MIN_TENTHS <= self.intensity_tenths <= INTENSITY_MAX_TENTHS
    }
}

/// An intensity forced into the accepted range.
pub open spec fn clamped_intensity(t: int) -> int {
    if t < INTENSITY_MIN_TENTHS as int {
        INTENSITY_MIN_TENTHS as int
    } else if t > INTENSITY_MAX_TENTHS as int {
        INTENSITY_MAX_TENTHS as int
    } else {
        t
    }
}

/// Forces an externally supplied intensity into the accepted range before it
/// reaches the kernel compiler.
pub fn clamp_intensity_tenths(t: u32) -> (r: u32)
    ensures
        r == clamped_intensity(t as int),
        INTENSITY_MIN_TENTHS <= r <= INTENSITY_MAX_TENTHS,
{
    if t < INTENSITY_MIN_TENTHS {
        INTENSITY_MIN_TENTHS
    } else if t > INTENSITY_MAX_TENTHS {
        INTENSITY_MAX_TENTHS
    } else {
        t
    }
}

/// The decimal digits of a nonnegative number, most significant first.
pub open spec fn dec_digits(n: int) -> Seq<u8>
    decreases n,
{
    if n < 10 {
        seq![(48 + n) as u8]
    } else {
        dec_digits(n / 10).push((48 + n % 10) as u8)
    }
}

/// Renders a number as its decimal digits.
pub fn u32_decimal(n: u32) -> (r: Vec<u8>)
    ensures
        r@ == dec_digits(n as int),
    decreases n,
{
    if n < 10 {
        let mut v: Vec<u8> = Vec::new();
        v.push(48 + n as u8);
        proof {
            assert(v@ =~= dec_digits(n as int));
        }
        v
    } else {
        let mut v = u32_decimal(n / 10);
        v.push(48 + (n % 10) as u8);
        proof {
            assert(v@ =~= dec_digits(n as int));
        }
        v
    }
}

/// The number a sequence of decimal digit bytes denotes.
pub open spec fn digits_value(s: Seq<u8>) -> int
    decreases s.len(),
{
    if s.len() == 0 {
        0
    } else {
        digits_value(s.drop_last()) * 10 + (s.last() - 48)
    }
}

/// The decimal rendering is faithful: reading the digits back yields the
/// number rendered, every byte is an ASCII digit, and at least one digit is
/// produced.
pub proof fn lemma_dec_digits_faithful(n: int)
    requires
        n >= 0,
    ensures
        digits_value(dec_digits(n)) == n,
        forall|i: int| 0 <= i < dec_digits(n).len() ==> 48 <= #[trigger] dec_digits(n)[i] <= 57,
        dec_digits(n).len() >= 1,
    decreases n,
{
    if n < 10 {
        let s = dec_digits(n);
        assert(s.drop_last() =~= Seq::<u8>::empty());
        assert((48 + n) as u8 == 48 + n);
        assert(digits_value(s) == digits_value(s.drop_last()) * 10 + (s.last() - 48));
    } else {
        lemma_dec_digits_faithful(n / 10);
        let s = dec_digits(n);
        assert(s.drop_last() =~= dec_digits(n / 10));
        assert(0 <= n % 10 < 10);
        assert((48 + n % 10) as u8 == 48 + n % 10);
        assert(digits_value(s) == digits_value(s.drop_last()) * 10 + (s.last() - 48));
        assert(digits_value(s) == (n / 10) * 10 + n % 10);
        lemma_fundamental_div_mod(n, 10);
        assert forall|i: int| 0 <= i < s.len() implies 48 <= #[trigger] s[i] <= 57 by {
            if i < s.len() - 1 {
                assert(s[i] == dec_digits(n / 10)[i]);
            }
        }
    }
}

/// An intensity in tenths rendered as a decimal fraction with one digit after
/// the point, e.g. fifteen tenths as the text `1.5`.
pub open spec fn intensity_text(t: int) -> Seq<u8> {
    dec_digits(t / 10) + seq![46u8, (48 + t % 10) as u8]
}

/// Renders an in-range intensity as kernel source text.
pub fn intensity_decimal(t: u32) -> (r: Vec<u8>)
    requires
        INTENSITY_MIN_TENTHS <= t <= INTENSITY_MAX_TENTHS,
    ensures
        r@ == intensity_text(t as int),
{
    let mut v = u32_decimal(t / 10);
    v.push(46);
    v.push(48 + (t % 10) as u8);
    proof {
        assert(v@ =~= intensity_text(t as int));
    }
    v
}

/// The literal the template spells where the image width belongs.
pub open spec fn width_placeholder() -> Seq<u8> {
    seq![87u8, 73u8, 68u8, 84u8, 72u8, 95u8, 80u8, 76u8, 65u8, 67u8, 69u8, 72u8, 79u8, 76u8, 68u8, 69u8, 82u8]
}

/// The literal the template spells where the image height belongs.
pub open spec fn height_placeholder() -> Seq<u8> {
    seq![72u8, 69u8, 73u8, 71u8, 72u8, 84u8, 95u8, 80u8, 76u8, 65u8, 67u8, 69u8, 72u8, 79u8, 76u8, 68u8, 69u8, 82u8]
}

/// The literal the template spells where the blur intensity belongs.
pub open spec fn intensity_placeholder() -> Seq<u8> {
    seq![73u8, 78u8, 84u8, 69u8, 78u8, 83u8, 73u8, 84u8, 89u8, 95u8, 80u8, 76u8, 65u8, 67u8, 69u8, 72u8, 79u8, 76u8, 68u8, 69u8, 82u8]
}

/// Builds the width placeholder as bytes.
pub fn width_placeholder_bytes() -> (r: Vec<u8>)
    ensures
        r@ == width_placeholder(),
{
    let mut v: Vec<u8> = Vec::new();
    v.push(87u8);
    v.push(73u8);
    v.push(68u8);
    v.push(84u8);
    v.push(72u8);
    v.push(95u8);
    v.push(80u8);
    v.push(76u8);
    v.push(65u8);
    v.push(67u8);
    v.push(69u8);
    v.push(72u8);
    v.push(79u8);
    v.push(76u8);
    v.push(68u8);
    v.push(69u8);
    v.push(82u8);
    proof {
        assert(v@ =~= width_placeholder());
    }
    v
}

/// Builds the height placeholder as bytes.
pub fn height_placeholder_bytes() -> (r: Vec<u8>)
    ensures
        r@ == height_placeholder(),
{
    let mut v: Vec<u8> = Vec::new();
    v.push(72u8);
    v.push(69u8);
    v.push(73u8);
    v.push(71u8);
    v.push(72u8);
    v.push(84u8);
    v.push(95u8);
    v.push(80u8);
    v.push(76u8);
    v.push(65u8);
    v.push(67u8);
    v.push(69u8);
    v.push(72u8);
    v.push(79u8);
    v.push(76u8);
    v.push(68u8);
    v.push(69u8);
    v.push(82u8);
    proof {
        assert(v@ =~= height_placeholder());
    }
    v
}

/// Builds the intensity placeholder as bytes.
pub fn intensity_placeholder_bytes() -> (r: Vec<u8>)
    ensures
        r@ == intensity_placeholder(),
{
    let mut v: Vec<u8> = Vec::new();
    v.push(73u8);
    v.push(78u8);
    v.push(84u8);
    v.push(69u8);
    v.push(78u8);
    v.push(83u8);
    v.push(73u8);
    v.push(84u8);
    v.push(89u8);
    v.push(95u8);
    v.push(80u8);
    v.push(76u8);
    v.push(65u8);
    v.push(67u8);
    v.push(69u8);
    v.push(72u8);
    v.push(79u8);
    v.push(76u8);
    v.push(68u8);
    v.push(69u8);
    v.push(82u8);
    proof {
        assert(v@ =~= intensity_placeholder());
    }
    v
}

/// The pattern occurs in `s` starting at index `i`.
pub open spec fn match_at(s: Seq<u8>, pat: Seq<u8>, i: int) -> bool {
    &&& 0 <= i
    &&& i + pat.len() <= s.len()
    &&& s.subrange(i, i + pat.len()) == pat
}

/// The pattern occurs somewhere in `s`.
pub open spec fn contains_pattern(s: Seq<u8>, pat: Seq<u8>) -> bool {
    exists|i: int| match_at(s, pat, i)
}

/// `s` with every occurrence of `pat` replaced by `rep`, scanning left to
/// right without revisiting replaced text.
pub open spec fn replace_all(s: Seq<u8>, pat: Seq<u8>, rep: Seq<u8>) -> Seq<u8>
    decreases s.len(),
{
    if pat.len() == 0 || s.len() < pat.len() {
        s
    } else if s.subrange(0, pat.len() as int) == pat {
        rep + replace_all(s.subrange(pat.len() as int, s.len() as int), pat, rep)
    } else {
        seq![s[0]] + replace_all(s.subrange(1, s.len() as int), pat, rep)
    }
}

/// Substitution touches only the pattern: text in which the pattern does not
/// occur comes through replacement exactly as it is.
pub proof fn lemma_replace_absent(s: Seq<u8>, pat: Seq<u8>, rep: Seq<u8>)
    requires
        pat.len() >= 1,
        !contains_pattern(s, pat),
    ensures
        replace_all(s, pat, rep) == s,
    decreases s.len(),
{
    if s.len() >= pat.len() {
        assert(!match_at(s, pat, 0));
        let t = s.subrange(1, s.len() as int);
        assert forall|i: int| !match_at(t, pat, i) by {
            if 0 <= i && i + pat.len() <= t.len() {
                assert(t.subrange(i, i + pat.len()) =~= s.subrange(i + 1, i + 1 + pat.len()));
                if t.subrange(i, i + pat.len()) == pat {
                    assert(match_at(s, pat, i + 1));
                    assert(contains_pattern(s, pat));
                }
            }
        }
        lemma_replace_absent(t, pat, rep);
        assert(replace_all(s, pat, rep) == seq![s[0]] + t);
        assert(seq![s[0]] + t =~= s);
    }
}

/// Whether the pattern occurs at position `i` of `s`.
fn is_match_at(s: &Vec<u8>, i: usize, pat: &Vec<u8>) -> (r: bool)
    requires
        i + pat@.len() <= s@.len(),
    ensures
        r == (s@.subrange(i as int, i + pat@.len()) == pat@),
{
    let ghost sub = s@.subrange(i as int, i + pat@.len());
    let slen: usize = s.len();
    let mut j: usize = 0;
    while j < pat.len()
        invariant
            slen == s@.len(),
            i + pat@.len() <= s@.len(),
            j <= pat@.len(),
            sub == s@.subrange(i as int, i + pat@.len()),
            forall|k: int| 0 <= k < j ==> s@[i + k] == pat@[k],
        decreases pat@.len() - j,
    {
        if s[i + j] != pat[j] {
            proof {
                assert(sub[j as int] == s@[i + j]);
                assert(sub != pat@);
            }
            return false;
        }
        j += 1;
    }
    proof {
        assert forall|k: int| 0 <= k < pat@.len() implies sub[k] == pat@[k] by {
            assert(s@[i + k] == pat@[k]);
        }
        assert(sub =~= pat@);
    }
    true
}

/// Whether the pattern occurs anywhere in `s`.
pub fn contains_bytes(s: &Vec<u8>, pat: &Vec<u8>) -> (r: bool)
    requires
        pat@.len() >= 1,
    ensures
        r == contains_pattern(s@, pat@),
{
    if s.len() < pat.len() {
        proof {
            assert(forall|i: int| !match_at(s@, pat@, i));
        }
        return false;
    }
    let end: usize = s.len() - pat.len();
    let mut i: usize = 0;
    while i <= end
        invariant
            pat@.len() >= 1,
            s@.len() <= usize::MAX,
            s@.len() >= pat@.len(),
            end == s@.len() - pat@.len(),
            i <= end + 1,
            forall|k: int| 0 <= k < i ==> !match_at(s@, pat@, k),
        decreases end + 1 - i,
    {
        if is_match_at(s, i, pat) {
            proof {
                assert(match_at(s@, pat@, i as int));
            }
            return true;
        }
        i += 1;
    }
    proof {
        assert forall|k: int| !match_at(s@, pat@, k) by {
            if 0 <= k && k + pat@.len() <= s@.len() {
                assert(k < i);
            }
        }
    }
    false
}

/// Appends all of `src` onto `out`.
fn push_all(out: &mut Vec<u8>, src: &Vec<u8>)
    ensures
        final(out)@ == old(out)@ + src@,
{
    let ghost out0 = out@;
    let mut j: usize = 0;
    while j < src.len()
        invariant
            j <= src@.len(),
            out@ == out0 + src@.subrange(0, j as int),
        decreases src@.len() - j,
    {
        out.push(src[j]);
        proof {
            assert(out@ =~= out0 + src@.subrange(0, j + 1));
        }
        j += 1;
    }
    proof {
        assert(src@.subrange(0, src@.len() as int) =~= src@);
    }
}

/// Replaces every occurrence of `pat` in `s` by `rep`, scanning left to right.
pub fn replace_all_bytes(s: &Vec<u8>, pat: &Vec<u8>, rep: &Vec<u8>) -> (r: Vec<u8>)
    requires
        pat@.len() >= 1,
    ensures
        r@ == replace_all(s@, pat@, rep@),
{
    let mut out: Vec<u8> = Vec::new();
    let slen: usize = s.len();
    let mut i: usize = 0;
    proof {
        assert(s@.subrange(0, s@.len() as int) =~= s@);
        assert(out@ + replace_all(s@, pat@, rep@) =~= replace_all(s@, pat@, rep@));
    }
    while i < slen
        invariant
            pat@.len() >= 1,
            slen == s@.len(),
            i <= s@.len(),
            replace_all(s@, pat@, rep@)
                == out@ + replace_all(s@.subrange(i as int, s@.len() as int), pat@, rep@),
        decreases s@.len() - i,
    {
        let ghost tail = s@.subrange(i as int, s@.len() as int);
        let ghost out_before = out@;
        let remaining: usize = s.len() - i;
        if remaining >= pat.len() && is_match_at(s, i, pat) {
            push_all(&mut out, rep);
            proof {
                assert(tail.subrange(0, pat@.len() as int)
                    =~= s@.subrange(i as int, i + pat@.len()));
                assert(tail.subrange(pat@.len() as int, tail.len() as int)
                    =~= s@.subrange(i + pat@.len(), s@.len() as int));
                assert(replace_all(tail, pat@, rep@)
                    == rep@ + replace_all(s@.subrange(i + pat@.len(), s@.len() as int), pat@, rep@));
                assert(out_before + replace_all(tail, pat@, rep@)
                    =~= out@ + replace_all(s@.subrange(i + pat@.len(), s@.len() as int), pat@, rep@));
            }
            i = i + pat.len();
        } else {
            out.push(s[i]);
            proof {
                assert(tail.subrange(1, tail.len() as int)
                    =~= s@.subrange(i + 1, s@.len() as int));
                if tail.len() >= pat@.len() {
                    assert(tail.subrange(0, pat@.len() as int)
                        =~= s@.subrange(i as int, i + pat@.len()));
                    assert(replace_all(tail, pat@, rep@)
                        == seq![tail[0]] + replace_all(tail.subrange(1, tail.len() as int), pat@, rep@));
                } else {
                    assert(replace_all(tail, pat@, rep@) == tail);
                    assert(replace_all(tail.subrange(1, tail.len() as int), pat@, rep@)
                        == tail.subrange(1, tail.len() as int));
                    assert(tail =~= seq![tail[0]] + tail.subrange(1, tail.len() as int));
                }
                assert(out_before + replace_all(tail, pat@, rep@)
                    =~= out@ + replace_all(s@.subrange(i + 1, s@.len() as int), pat@, rep@));
            }
            i = i + 1;
        }
    }
    proof {
        assert(s@.subrange(i as int, s@.len() as int) =~= Seq::<u8>::empty());
        assert(replace_all(Seq::<u8>::empty(), pat@, rep@) == Seq::<u8>::empty());
        assert(out@ + Seq::<u8>::empty() =~= out@);
    }
    out
}

/// The template with the three placeholders replaced by the rendered
/// parameter values, width first, then height, then intensity.
pub open spec fn instantiated(t: Seq<u8>, width: int, height: int, tenths: int) -> Seq<u8> {
    replace_all(
        replace_all(
            replace_all(t, width_placeholder(), dec_digits(width)),
            height_placeholder(),
            dec_digits(height),
        ),
        intensity_placeholder(),
        intensity_text(tenths),
    )
}

/// Instantiates the kernel template: substitutes the three placeholders with
/// the parameters' rendered values, and rejects a template from which any of
/// the three is absent.
pub fn instantiate_kernel(template: &Vec<u8>, params: KernelParameters) -> (r: Result<
    Vec<u8>,
    BlurError,
>)
    requires
        params.wf(),
    ensures
        r is Ok <==> (contains_pattern(template@, width_placeholder())
            && contains_pattern(template@, height_placeholder())
            && contains_pattern(template@, intensity_placeholder())),
        r matches Ok(code) ==> code@ == instantiated(
            template@,
            params.width as int,
            params.height as int,
            params.intensity_tenths as int,
        ),
        r == Err::<Vec<u8>, BlurError>(BlurError::MissingWidthPlaceholder)
            <==> !contains_pattern(template@, width_placeholder()),
        r == Err::<Vec<u8>, BlurError>(BlurError::MissingHeightPlaceholder)
            <==> (contains_pattern(template@, width_placeholder())
                && !contains_pattern(template@, height_placeholder())),
        r == Err::<Vec<u8>, BlurError>(BlurError::MissingIntensityPlaceholder)
            <==> (contains_pattern(template@, width_placeholder())
                && contains_pattern(template@, height_placeholder())
                && !contains_pattern(template@, intensity_placeholder())),
{
    let width_pat = width_placeholder_bytes();
    let height_pat = height_placeholder_bytes();
    let intensity_pat = intensity_placeholder_bytes();
    if !contains_bytes(template, &width_pat) {
        return Err(BlurError::MissingWidthPlaceholder);
    }
    if !contains_bytes(template, &height_pat) {
        return Err(BlurError::MissingHeightPlaceholder);
    }
    if !contains_bytes(template, &intensity_pat) {
        return Err(BlurError::MissingIntensityPlaceholder);
    }
    let width_text = u32_decimal(params.width);
    let height_text = u32_decimal(params.height);
    let intensity_value = intensity_decimal(params.intensity_tenths);
    let step1 = replace_all_bytes(template, &width_pat, &width_text);
    let step2 = replace_all_bytes(&step1, &height_pat, &height_text);
    let step3 = replace_all_bytes(&step2, &intensity_pat, &intensity_value);
    Ok(step3)
}

} // verus!
