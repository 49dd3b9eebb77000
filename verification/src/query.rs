//! From the name and value pairs of a query to the parameters of a request.
//!
//! A pair whose name is not known is passed over. A known name that comes
//! twice, and a value that its parameter cannot take, are errors of the
//! request: the first such pair in the query decides which.

use vstd::prelude::*;
use vstd::string::*;
use crate::auth::{SignedUrl, SignedUrlView};
use crate::decimal::{all_digits, digits_value, read_digits, Decimal};
use crate::format::ImgFormat;
use crate::params::{ImgParams, MAX_FACEPAD};
use crate::text::{chars_of, same_text};

verus! {

/// The parameters that a query may name.
#[derive(Debug, Clone, Copy, PartialEq, Eq, Structural)]
pub enum Param {
    W,
    H,
    Format,
    Blur,
    Sharpen,
    Enhance,
    Facecrop,
    Facepad,
    Signature,
    Expires,
}

/// Why a query was not taken.
#[derive(Debug, Clone, Copy, PartialEq, Eq, Structural)]
pub enum ParamError {
    /// The value is none that the parameter can take.
    Invalid(Param),
    /// The parameter is named more than once.
    Repeated(Param),
}

impl Param {
    /// The name of a parameter in a query.
    pub open spec fn name_spec(self) -> Seq<char> {
        match self {
            Param::W => "w"@,
            Param::H => "h"@,
            Param::Format => "format"@,
            Param::Blur => "blur"@,
            Param::Sharpen => "sharpen"@,
            Param::Enhance => "enhance"@,
            Param::Facecrop => "facecrop"@,
            Param::Facepad => "facepad"@,
            Param::Signature => "s"@,
            Param::Expires => "expires"@,
        }
    }

    /// The name of a parameter in a query.
    pub fn name(&self) -> (s: &'static str)
        ensures
            s@ == self.name_spec(),
    {
        match self {
            Param::W => "w",
            Param::H => "h",
            Param::Format => "format",
            Param::Blur => "blur",
            Param::Sharpen => "sharpen",
            Param::Enhance => "enhance",
            Param::Facecrop => "facecrop",
            Param::Facepad => "facepad",
            Param::Signature => "s",
            Param::Expires => "expires",
        }
    }
}

impl ParamError {
    /// What the error says: that the parameter is invalid, or that it is
    /// named twice.
    pub open spec fn message_spec(self) -> Seq<char> {
        match self {
            ParamError::Invalid(q) => "invalid value for parameter: "@ + q.name_spec(),
            ParamError::Repeated(q) => "parameter named twice: "@ + q.name_spec(),
        }
    }

    /// The text of the error.
    pub fn message(&self) -> (text: String)
        ensures
            text@ == self.message_spec(),
    {
        match self {
            ParamError::Invalid(q) => {
                let mut text = String::from_str("invalid value for parameter: ");
                text.append(q.name());
                text
            },
            ParamError::Repeated(q) => {
                let mut text = String::from_str("parameter named twice: ");
                text.append(q.name());
                text
            },
        }
    }
}

/// The pairs of a query as texts.
pub type Pairs = Seq<(Seq<char>, Seq<char>)>;

/// A target side: a number above zero.
pub open spec fn parse_side(value: Seq<char>) -> Option<Decimal> {
    match Decimal::parse_spec(value) {
        Some(d) => if d.thousandths > 0 {
            Some(d)
        } else {
            None
        },
        None => None,
    }
}

/// A face padding: a number within the limit.
pub open spec fn parse_facepad(value: Seq<char>) -> Option<Decimal> {
    match Decimal::parse_spec(value) {
        Some(d) => if d.thousandths <= MAX_FACEPAD {
            Some(d)
        } else {
            None
        },
        None => None,
    }
}

/// A flag: on where the name stands alone or with `true`, off with `false`.
pub open spec fn parse_flag(value: Seq<char>) -> Option<bool> {
    if value.len() == 0 || value == "true"@ {
        Some(true)
    } else if value == "false"@ {
        Some(false)
    } else {
        None
    }
}

/// A format: `png`, or `jpeg` or `jpg`; also by the names `Png` and `Jpeg`.
pub open spec fn parse_format(value: Seq<char>) -> Option<ImgFormat> {
    if value == "png"@ || value == "Png"@ {
        Some(ImgFormat::Png)
    } else if value == "jpeg"@ || value == "jpg"@ || value == "Jpeg"@ {
        Some(ImgFormat::Jpeg)
    } else {
        None
    }
}

/// A time in seconds since the epoch: digits that write a number within 64 bits.
pub open spec fn parse_epoch(value: Seq<char>) -> Option<u64> {
    if value.len() > 0 && all_digits(value) && digits_value(value) <= u64::MAX {
        Some(digits_value(value) as u64)
    } else {
        None
    }
}

/// The parameter that a name in a query stands for; `None` for a name that
/// is not known.
pub open spec fn param_named(name: Seq<char>) -> Option<Param> {
    if name == "w"@ {
        Some(Param::W)
    } else if name == "h"@ {
        Some(Param::H)
    } else if name == "format"@ {
        Some(Param::Format)
    } else if name == "blur"@ {
        Some(Param::Blur)
    } else if name == "sharpen"@ {
        Some(Param::Sharpen)
    } else if name == "enhance"@ {
        Some(Param::Enhance)
    } else if name == "facecrop"@ {
        Some(Param::Facecrop)
    } else if name == "facepad"@ {
        Some(Param::Facepad)
    } else if name == "s"@ {
        Some(Param::Signature)
    } else if name == "expires"@ {
        Some(Param::Expires)
    } else {
        None
    }
}

/// Whether the parameters hold a value for a parameter already. The
/// signature and the time of validity are no parameters of the transform.
pub open spec fn holds(acc: ImgParams, param: Param) -> bool {
    match param {
        Param::W => acc.w is Some,
        Param::H => acc.h is Some,
        Param::Format => acc.format is Some,
        Param::Blur => acc.blur is Some,
        Param::Sharpen => acc.sharpen is Some,
        Param::Enhance => acc.enhance is Some,
        Param::Facecrop => acc.facecrop is Some,
        Param::Facepad => acc.facepad is Some,
        Param::Signature => false,
        Param::Expires => false,
    }
}

/// The parameters with the value of one parameter put in; `None` where the
/// parameter cannot take the value.
pub open spec fn put(acc: ImgParams, param: Param, value: Seq<char>) -> Option<ImgParams> {
    match param {
        Param::W => match parse_side(value) {
            Some(d) => Some(ImgParams { w: Some(d), ..acc }),
            None => None,
        },
        Param::H => match parse_side(value) {
            Some(d) => Some(ImgParams { h: Some(d), ..acc }),
            None => None,
        },
        Param::Format => match parse_format(value) {
            Some(f) => Some(ImgParams { format: Some(f), ..acc }),
            None => None,
        },
        Param::Blur => match parse_flag(value) {
            Some(b) => Some(ImgParams { blur: Some(b), ..acc }),
            None => None,
        },
        Param::Sharpen => match parse_flag(value) {
            Some(b) => Some(ImgParams { sharpen: Some(b), ..acc }),
            None => None,
        },
        Param::Enhance => match parse_flag(value) {
            Some(b) => Some(ImgParams { enhance: Some(b), ..acc }),
            None => None,
        },
        Param::Facecrop => match parse_flag(value) {
            Some(b) => Some(ImgParams { facecrop: Some(b), ..acc }),
            None => None,
        },
        Param::Facepad => match parse_facepad(value) {
            Some(d) => Some(ImgParams { facepad: Some(d), ..acc }),
            None => None,
        },
        Param::Signature => Some(acc),
        Param::Expires => Some(acc),
    }
}

/// The parameters after one more pair of the query: a name that is not known
/// changes nothing; a parameter that has its value already is an error; so is
/// a value that the parameter cannot take.
pub open spec fn apply_pair(acc: ImgParams, name: Seq<char>, value: Seq<char>) -> Result<ImgParams, ParamError> {
    match param_named(name) {
        None => Ok(acc),
        Some(param) => if holds(acc, param) {
            Err(ParamError::Repeated(param))
        } else {
            match put(acc, param, value) {
                Some(next) => Ok(next),
                None => Err(ParamError::Invalid(param)),
            }
        },
    }
}

/// The parameters after all the pairs of a query, taken in their order.
pub open spec fn apply_pairs(pairs: Pairs, acc: ImgParams) -> Result<ImgParams, ParamError>
    decreases pairs.len(),
{
    if pairs.len() == 0 {
        Ok(acc)
    } else {
        match apply_pair(acc, pairs[0].0, pairs[0].1) {
            Ok(next) => apply_pairs(pairs.drop_first(), next),
            Err(e) => Err(e),
        }
    }
}

/// The parameters that a query asks for.
pub open spec fn parse_params(pairs: Pairs) -> Result<ImgParams, ParamError> {
    apply_pairs(pairs, ImgParams::empty())
}

fn read_side(value: &str) -> (side: Option<Decimal>)
    ensures
        side == parse_side(value@),
{
    match Decimal::parse(value) {
        Some(d) => if d.thousandths > 0 {
            Some(d)
        } else {
            None
        },
        None => None,
    }
}

fn read_facepad(value: &str) -> (pad: Option<Decimal>)
    ensures
        pad == parse_facepad(value@),
{
    match Decimal::parse(value) {
        Some(d) => if d.thousandths <= MAX_FACEPAD {
            Some(d)
        } else {
            None
        },
        None => None,
    }
}

fn read_flag(value: &str) -> (on: Option<bool>)
    ensures
        on == parse_flag(value@),
{
    let cs = chars_of(value);
    if cs.len() == 0 || same_text(&cs, "true") {
        Some(true)
    } else if same_text(&cs, "false") {
        Some(false)
    } else {
        None
    }
}

fn read_format(value: &str) -> (format: Option<ImgFormat>)
    ensures
        format == parse_format(value@),
{
    let cs = chars_of(value);
    if same_text(&cs, "png") || same_text(&cs, "Png") {
        Some(ImgFormat::Png)
    } else if same_text(&cs, "jpeg") || same_text(&cs, "jpg") || same_text(&cs, "Jpeg") {
        Some(ImgFormat::Jpeg)
    } else {
        None
    }
}

fn read_epoch(value: &str) -> (time: Option<u64>)
    ensures
        time == parse_epoch(value@),
{
    let cs = chars_of(value);
    assert(cs@.subrange(0, cs.len() as int) =~= cs@);
    if cs.len() == 0 {
        None
    } else {
        read_digits(&cs, 0, cs.len(), 0xffff_ffff_ffff_ffff)
    }
}

/// The parameter that a name in a query stands for.
pub fn param_of(name: &str) -> (param: Option<Param>)
    ensures
        param == param_named(name@),
{
    let n = chars_of(name);
    if same_text(&n, "w") {
        Some(Param::W)
    } else if same_text(&n, "h") {
        Some(Param::H)
    } else if same_text(&n, "format") {
        Some(Param::Format)
    } else if same_text(&n, "blur") {
        Some(Param::Blur)
    } else if same_text(&n, "sharpen") {
        Some(Param::Sharpen)
    } else if same_text(&n, "enhance") {
        Some(Param::Enhance)
    } else if same_text(&n, "facecrop") {
        Some(Param::Facecrop)
    } else if same_text(&n, "facepad") {
        Some(Param::Facepad)
    } else if same_text(&n, "s") {
        Some(Param::Signature)
    } else if same_text(&n, "expires") {
        Some(Param::Expires)
    } else {
        None
    }
}

fn holds_value(acc: &ImgParams, param: Param) -> (held: bool)
    ensures
        held == holds(*acc, param),
{
    match param {
        Param::W => acc.w.is_some(),
        Param::H => acc.h.is_some(),
        Param::Format => acc.format.is_some(),
        Param::Blur => acc.blur.is_some(),
        Param::Sharpen => acc.sharpen.is_some(),
        Param::Enhance => acc.enhance.is_some(),
        Param::Facecrop => acc.facecrop.is_some(),
        Param::Facepad => acc.facepad.is_some(),
        Param::Signature => false,
        Param::Expires => false,
    }
}

fn put_value(acc: ImgParams, param: Param, value: &str) -> (next: Option<ImgParams>)
    ensures
        next == put(acc, param, value@),
        acc.wf() ==> (next matches Some(p) ==> p.wf()),
{
    let mut next = acc;
    match param {
        Param::W => {
            next.w = Some(read_side(value)?);
        },
        Param::H => {
            next.h = Some(read_side(value)?);
        },
        Param::Format => {
            next.format = Some(read_format(value)?);
        },
        Param::Blur => {
            next.blur = Some(read_flag(value)?);
        },
        Param::Sharpen => {
            next.sharpen = Some(read_flag(value)?);
        },
        Param::Enhance => {
            next.enhance = Some(read_flag(value)?);
        },
        Param::Facecrop => {
            next.facecrop = Some(read_flag(value)?);
        },
        Param::Facepad => {
            next.facepad = Some(read_facepad(value)?);
        },
        Param::Signature => {},
        Param::Expires => {},
    }
    Some(next)
}

fn take_pair(acc: ImgParams, name: &str, value: &str) -> (r: Result<ImgParams, ParamError>)
    ensures
        r == apply_pair(acc, name@, value@),
        acc.wf() ==> (r matches Ok(p) ==> p.wf()),
{
    match param_of(name) {
        None => Ok(acc),
        Some(param) => {
            if holds_value(&acc, param) {
                Err(ParamError::Repeated(param))
            } else {
                match put_value(acc, param, value) {
                    Some(next) => Ok(next),
                    None => Err(ParamError::Invalid(param)),
                }
            }
        },
    }
}

impl ImgParams {
    /// Reads the parameters of a request from the pairs of its query, taken
    /// in their order. The first pair that names a parameter a second time,
    /// or gives it a value that it cannot take, is the error. Parameters that
    /// were read are well-formed.
    pub fn from_query(pairs: &Vec<(String, String)>) -> (r: Result<ImgParams, ParamError>)
        ensures
            r == parse_params(pairs.deep_view()),
            r matches Ok(p) ==> p.wf(),
    {
        let mut acc = ImgParams {
            w: None,
            h: None,
            format: None,
            blur: None,
            sharpen: None,
            enhance: None,
            facecrop: None,
            facepad: None,
        };
        let ghost all = pairs.deep_view();
        let mut i: usize = 0;
        assert(all.skip(0) =~= all);
        while i < pairs.len()
            invariant
                i <= pairs.len(),
                all == pairs.deep_view(),
                acc.wf(),
                parse_params(all) == apply_pairs(all.skip(i as int), acc),
            decreases pairs.len() - i,
        {
            let ghost rest = all.skip(i as int);
            assert(rest[0] == (pairs@[i as int].0@, pairs@[i as int].1@));
            assert(rest.drop_first() =~= all.skip(i + 1));
            match take_pair(acc, pairs[i].0.as_str(), pairs[i].1.as_str()) {
                Ok(next) => {
                    acc = next;
                },
                Err(e) => {
                    return Err(e);
                },
            }
            i += 1;
        }
        Ok(acc)
    }
}

/// What a request carries of a signed URL after one more pair of the query:
/// the signature is taken as it is, the time of validity must be written in
/// digits; either may be named once. Every other name changes nothing.
pub open spec fn apply_signed_pair(acc: SignedUrlView, name: Seq<char>, value: Seq<char>) -> Result<
    SignedUrlView,
    ParamError,
> {
    match param_named(name) {
        Some(Param::Signature) => if acc.signature is Some {
            Err(ParamError::Repeated(Param::Signature))
        } else {
            Ok(SignedUrlView { signature: Some(value), ..acc })
        },
        Some(Param::Expires) => if acc.expires is Some {
            Err(ParamError::Repeated(Param::Expires))
        } else {
            match parse_epoch(value) {
                Some(t) => Ok(SignedUrlView { expires: Some(t), ..acc }),
                None => Err(ParamError::Invalid(Param::Expires)),
            }
        },
        _ => Ok(acc),
    }
}

/// What a request carries of a signed URL after all the pairs of a query.
pub open spec fn apply_signed_pairs(pairs: Pairs, acc: SignedUrlView) -> Result<SignedUrlView, ParamError>
    decreases pairs.len(),
{
    if pairs.len() == 0 {
        Ok(acc)
    } else {
        match apply_signed_pair(acc, pairs[0].0, pairs[0].1) {
            Ok(next) => apply_signed_pairs(pairs.drop_first(), next),
            Err(e) => Err(e),
        }
    }
}

/// What a query carries of a signed URL.
pub open spec fn parse_signed(pairs: Pairs) -> Result<SignedUrlView, ParamError> {
    apply_signed_pairs(pairs, SignedUrlView { signature: None, expires: None })
}

/// A result whose `Ok` is seen through its view.
pub open spec fn viewed(r: Result<SignedUrl, ParamError>) -> Result<SignedUrlView, ParamError> {
    match r {
        Ok(u) => Ok(u@),
        Err(e) => Err(e),
    }
}

fn take_signed_pair(acc: SignedUrl, name: &str, value: &String) -> (r: Result<SignedUrl, ParamError>)
    ensures
        viewed(r) == apply_signed_pair(acc@, name@, value@),
{
    match param_of(name) {
        Some(Param::Signature) => {
            if acc.signature.is_some() {
                Err(ParamError::Repeated(Param::Signature))
            } else {
                Ok(SignedUrl { signature: Some(value.clone()), expires: acc.expires })
            }
        },
        Some(Param::Expires) => {
            if acc.expires.is_some() {
                Err(ParamError::Repeated(Param::Expires))
            } else {
                match read_epoch(value.as_str()) {
                    Some(t) => Ok(SignedUrl { signature: acc.signature, expires: Some(t) }),
                    None => Err(ParamError::Invalid(Param::Expires)),
                }
            }
        },
        _ => Ok(acc),
    }
}

impl SignedUrl {
    /// Reads the signature and the time of validity of a request from the
    /// pairs of its query, taken in their order. The first pair that names
    /// one of the two a second time, or gives a time that is not written in
    /// digits or does not fit 64 bits, is the error.
    pub fn from_query(pairs: &Vec<(String, String)>) -> (r: Result<SignedUrl, ParamError>)
        ensures
            viewed(r) == parse_signed(pairs.deep_view()),
    {
        let mut acc = SignedUrl { signature: None, expires: None };
        let ghost all = pairs.deep_view();
        let mut i: usize = 0;
        assert(all.skip(0) =~= all);
        while i < pairs.len()
            invariant
                i <= pairs.len(),
                all == pairs.deep_view(),
                parse_signed(all) == apply_signed_pairs(all.skip(i as int), acc@),
            decreases pairs.len() - i,
        {
            let ghost rest = all.skip(i as int);
            assert(rest[0] == (pairs@[i as int].0@, pairs@[i as int].1@));
            assert(rest.drop_first() =~= all.skip(i + 1));
            match take_signed_pair(acc, pairs[i].0.as_str(), &pairs[i].1) {
                Ok(next) => {
                    acc = next;
                },
                Err(e) => {
                    return Err(e);
                },
            }
            i += 1;
        }
        Ok(acc)
    }
}

/// Reading a query in two parts: the second part goes on from what the
/// first part gave.
pub proof fn lemma_apply_pairs_split(first: Pairs, second: Pairs, acc: ImgParams)
    ensures
        apply_pairs(first + second, acc) == (match apply_pairs(first, acc) {
            Ok(mid) => apply_pairs(second, mid),
            Err(e) => Err(e),
        }),
    decreases first.len(),
{
    if first.len() == 0 {
        assert(first + second =~= second);
    } else {
        assert((first + second)[0] == first[0]);
        assert((first + second).drop_first() =~= first.drop_first() + second);
        match apply_pair(acc, first[0].0, first[0].1) {
            Ok(next) => {
                lemma_apply_pairs_split(first.drop_first(), second, next);
            },
            Err(_) => {},
        }
    }
}

/// Two values that are both put in, one after the other, are put in in the
/// other order too, and give the same parameters.
#[verifier::rlimit(100)]
#[verifier::spinoff_prover]
proof fn lemma_put_commutes(acc: ImgParams, p: Param, v: Seq<char>, q: Param, w: Seq<char>)
    requires
        !holds(acc, p),
        put(acc, p, v) is Some,
        !holds(put(acc, p, v)->0, q),
        put(put(acc, p, v)->0, q, w) is Some,
    ensures
        !holds(acc, q),
        put(acc, q, w) is Some,
        !holds(put(acc, q, w)->0, p),
        put(put(acc, q, w)->0, p, v) == put(put(acc, p, v)->0, q, w),
{
}

/// Two pairs that are both taken, one after the other, are taken in the
/// other order too, and give the same parameters.
pub proof fn lemma_apply_pair_commutes(acc: ImgParams, x: (Seq<char>, Seq<char>), y: (Seq<char>, Seq<char>))
    requires
        apply_pairs(seq![x, y], acc) is Ok,
    ensures
        apply_pairs(seq![y, x], acc) == apply_pairs(seq![x, y], acc),
{
    reveal_with_fuel(apply_pairs, 3);
    let xy = seq![x, y];
    let yx = seq![y, x];
    assert(xy.drop_first() =~= seq![y]);
    assert(yx.drop_first() =~= seq![x]);
    assert(seq![y].drop_first() =~= Seq::<(Seq<char>, Seq<char>)>::empty());
    assert(seq![x].drop_first() =~= Seq::<(Seq<char>, Seq<char>)>::empty());
    assert(xy[0] == x && yx[0] == y && seq![y][0] == y && seq![x][0] == x);
    match (param_named(x.0), param_named(y.0)) {
        (Some(p), Some(q)) => {
            lemma_put_commutes(acc, p, x.1, q, y.1);
        },
        _ => {},
    }
}

/// The order of the pairs does not matter to a query that is taken: with two
/// neighbouring pairs in the other order it is taken too, and asks for the
/// same parameters. Any other order is reached by such steps.
pub proof fn lemma_order_of_pairs(before: Pairs, x: (Seq<char>, Seq<char>), y: (Seq<char>, Seq<char>), after: Pairs)
    requires
        parse_params(before + seq![x, y] + after) is Ok,
    ensures
        parse_params(before + seq![y, x] + after) == parse_params(before + seq![x, y] + after),
{
    let start = ImgParams::empty();
    lemma_apply_pairs_split(before + seq![x, y], after, start);
    lemma_apply_pairs_split(before + seq![y, x], after, start);
    lemma_apply_pairs_split(before, seq![x, y], start);
    lemma_apply_pairs_split(before, seq![y, x], start);
    match apply_pairs(before, start) {
        Ok(mid) => {
            lemma_apply_pair_commutes(mid, x, y);
        },
        Err(_) => {},
    }
}

} // verus!
