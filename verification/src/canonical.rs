//! The canonical text of a request's parameters: every field in a fixed
//! order, a field that the request did not name written as `-`. Its MD5
//! digest tells the cache entries of one image apart.

use vstd::prelude::*;
use vstd::string::*;
use vstd::utf8::encode_utf8;
use crate::decimal::{
    is_digit, lemma_decimal_digits, lemma_decimal_digits_injective, push_decimal, Decimal,
};
use crate::digest::{md5_digest, md5_sum};
use crate::format::ImgFormat;
use crate::params::ImgParams;
use crate::text::push_char;

verus! {

/// One field of the canonical text: its name, `=`, its value, `;`.
pub open spec fn field(name: Seq<char>, value: Seq<char>) -> Seq<char> {
    name + seq!['='] + value + seq![';']
}

/// What stands for a field that the request did not name.
pub open spec fn absent() -> Seq<char> {
    "-"@
}

/// The value of a number: its thousandths in base ten.
pub open spec fn number_text(value: Option<Decimal>) -> Seq<char> {
    match value {
        Some(d) => d.digits(),
        None => absent(),
    }
}

/// The value of a flag: `true` or `false`.
pub open spec fn flag_text(value: Option<bool>) -> Seq<char> {
    match value {
        Some(true) => "true"@,
        Some(false) => "false"@,
        None => absent(),
    }
}

/// The value of a format: its name.
pub open spec fn format_text(value: Option<ImgFormat>) -> Seq<char> {
    match value {
        Some(f) => f.name_spec(),
        None => absent(),
    }
}

/// Whether a text is free of the character that ends a field.
pub open spec fn unbroken(value: Seq<char>) -> bool {
    forall|i: int| 0 <= i < value.len() ==> #[trigger] value[i] != ';'
}

impl ImgParams {
    /// The canonical text of the parameters.
    pub open spec fn canonical(self) -> Seq<char> {
        field("w"@, number_text(self.w)) + (field("h"@, number_text(self.h)) + (field(
            "format"@,
            format_text(self.format),
        ) + (field("blur"@, flag_text(self.blur)) + (field(
            "sharpen"@,
            flag_text(self.sharpen),
        ) + (field("enhance"@, flag_text(self.enhance)) + (field(
            "facecrop"@,
            flag_text(self.facecrop),
        ) + field("facepad"@, number_text(self.facepad))))))))
    }

    /// The key that tells the cache entries of one image apart: the MD5
    /// digest of the canonical text.
    pub open spec fn param_key(self) -> [u8; 16] {
        md5_sum(encode_utf8(self.canonical()))
    }
}

/// Two texts that begin with the same field name and split at the first `;`
/// split alike.
pub proof fn lemma_field_split(name: Seq<char>, v1: Seq<char>, r1: Seq<char>, v2: Seq<char>, r2: Seq<char>)
    requires
        unbroken(v1),
        unbroken(v2),
        field(name, v1) + r1 == field(name, v2) + r2,
    ensures
        v1 == v2,
        r1 == r2,
{
    let s1 = field(name, v1) + r1;
    let s2 = field(name, v2) + r2;
    let base: int = name.len() as int + 1;
    let n1: int = v1.len() as int;
    let n2: int = v2.len() as int;
    assert(s1[base + n1] == ';');
    assert(s2[base + n2] == ';');
    if n1 < n2 {
        assert(s2[base + n1] == v2[n1]);
    }
    if n2 < n1 {
        assert(s1[base + n2] == v1[n2]);
    }
    assert(v1.len() == v2.len());
    assert forall|i: int| 0 <= i < v1.len() implies v1[i] == v2[i] by {
        assert(s1[base + i] == v1[i]);
        assert(s2[base + i] == v2[i]);
    }
    assert(v1 =~= v2);
    assert(s1.len() == s2.len());
    assert forall|i: int| 0 <= i < r1.len() implies r1[i] == r2[i] by {
        assert(s1[base + n1 + 1 + i] == r1[i]);
        assert(s2[base + n2 + 1 + i] == r2[i]);
    }
    assert(r1 =~= r2);
}

/// The value of a number holds no `;`, and tells the number.
pub proof fn lemma_number_text(a: Option<Decimal>, b: Option<Decimal>)
    ensures
        unbroken(number_text(a)),
        number_text(a) == number_text(b) ==> a == b,
{
    reveal_strlit("-");
    if let Some(d) = a {
        lemma_decimal_digits(d.thousandths as nat);
        assert forall|i: int| 0 <= i < d.digits().len() implies #[trigger] d.digits()[i] != ';' by {
            assert(is_digit(d.digits()[i]));
        }
    }
    if let Some(d) = b {
        lemma_decimal_digits(d.thousandths as nat);
    }
    if number_text(a) == number_text(b) {
        match (a, b) {
            (Some(x), Some(y)) => {
                lemma_decimal_digits_injective(x.thousandths as nat, y.thousandths as nat);
            },
            (Some(x), None) => {
                assert(is_digit(x.digits()[0]));
                assert(absent()[0] == '-');
            },
            (None, Some(y)) => {
                assert(is_digit(y.digits()[0]));
                assert(absent()[0] == '-');
            },
            (None, None) => {},
        }
    }
}

/// The value of a flag holds no `;`, and tells the flag.
pub proof fn lemma_flag_text(a: Option<bool>, b: Option<bool>)
    ensures
        unbroken(flag_text(a)),
        flag_text(a) == flag_text(b) ==> a == b,
{
    reveal_strlit("-");
    reveal_strlit("true");
    reveal_strlit("false");
    assert("-"@.len() == 1 && "true"@.len() == 4 && "false"@.len() == 5);
}

/// The value of a format holds no `;`, and tells the format.
pub proof fn lemma_format_text(a: Option<ImgFormat>, b: Option<ImgFormat>)
    ensures
        unbroken(format_text(a)),
        format_text(a) == format_text(b) ==> a == b,
{
    reveal_strlit("-");
    reveal_strlit("png");
    reveal_strlit("jpeg");
    assert("-"@.len() == 1 && "png"@.len() == 3 && "jpeg"@.len() == 4);
}

/// Parameters are equal field by field exactly when their canonical texts
/// are equal.
pub proof fn lemma_canonical_injective(a: ImgParams, b: ImgParams)
    ensures
        a == b <==> a.canonical() == b.canonical(),
{
    if a.canonical() == b.canonical() {
        lemma_number_text(a.w, b.w);
        lemma_number_text(b.w, a.w);
        lemma_number_text(a.h, b.h);
        lemma_number_text(b.h, a.h);
        lemma_format_text(a.format, b.format);
        lemma_format_text(b.format, a.format);
        lemma_flag_text(a.blur, b.blur);
        lemma_flag_text(b.blur, a.blur);
        lemma_flag_text(a.sharpen, b.sharpen);
        lemma_flag_text(b.sharpen, a.sharpen);
        lemma_flag_text(a.enhance, b.enhance);
        lemma_flag_text(b.enhance, a.enhance);
        lemma_flag_text(a.facecrop, b.facecrop);
        lemma_flag_text(b.facecrop, a.facecrop);
        lemma_number_text(a.facepad, b.facepad);
        lemma_number_text(b.facepad, a.facepad);
        let a8 = field("facepad"@, number_text(a.facepad));
        let b8 = field("facepad"@, number_text(b.facepad));
        let a7 = field("facecrop"@, flag_text(a.facecrop)) + a8;
        let b7 = field("facecrop"@, flag_text(b.facecrop)) + b8;
        let a6 = field("enhance"@, flag_text(a.enhance)) + a7;
        let b6 = field("enhance"@, flag_text(b.enhance)) + b7;
        let a5 = field("sharpen"@, flag_text(a.sharpen)) + a6;
        let b5 = field("sharpen"@, flag_text(b.sharpen)) + b6;
        let a4 = field("blur"@, flag_text(a.blur)) + a5;
        let b4 = field("blur"@, flag_text(b.blur)) + b5;
        let a3 = field("format"@, format_text(a.format)) + a4;
        let b3 = field("format"@, format_text(b.format)) + b4;
        let a2 = field("h"@, number_text(a.h)) + a3;
        let b2 = field("h"@, number_text(b.h)) + b3;
        lemma_field_split("w"@, number_text(a.w), a2, number_text(b.w), b2);
        lemma_field_split("h"@, number_text(a.h), a3, number_text(b.h), b3);
        lemma_field_split("format"@, format_text(a.format), a4, format_text(b.format), b4);
        lemma_field_split("blur"@, flag_text(a.blur), a5, flag_text(b.blur), b5);
        lemma_field_split("sharpen"@, flag_text(a.sharpen), a6, flag_text(b.sharpen), b6);
        lemma_field_split("enhance"@, flag_text(a.enhance), a7, flag_text(b.enhance), b7);
        lemma_field_split("facecrop"@, flag_text(a.facecrop), a8, flag_text(b.facecrop), b8);
        assert(a8 =~= a8 + Seq::<char>::empty());
        assert(b8 =~= b8 + Seq::<char>::empty());
        lemma_field_split(
            "facepad"@,
            number_text(a.facepad),
            Seq::<char>::empty(),
            number_text(b.facepad),
            Seq::<char>::empty(),
        );
    }
}

proof fn lemma_concat_assoc(a: Seq<char>, b: Seq<char>, c: Seq<char>)
    ensures
        (a + b) + c == a + (b + c),
{
    assert((a + b) + c =~= a + (b + c));
}

fn push_number_field(out: &mut String, name: &str, value: Option<Decimal>)
    ensures
        final(out)@ == old(out)@ + field(name@, number_text(value)),
{
    out.append(name);
    push_char(out, '=');
    match value {
        Some(d) => {
            push_decimal(out, d.thousandths);
        },
        None => {
            out.append("-");
        },
    }
    push_char(out, ';');
    assert(out@ =~= old(out)@ + field(name@, number_text(value)));
}

fn push_flag_field(out: &mut String, name: &str, value: Option<bool>)
    ensures
        final(out)@ == old(out)@ + field(name@, flag_text(value)),
{
    out.append(name);
    push_char(out, '=');
    out.append(
        match value {
            Some(true) => "true",
            Some(false) => "false",
            None => "-",
        },
    );
    push_char(out, ';');
    assert(out@ =~= old(out)@ + field(name@, flag_text(value)));
}

fn push_format_field(out: &mut String, name: &str, value: Option<ImgFormat>)
    ensures
        final(out)@ == old(out)@ + field(name@, format_text(value)),
{
    out.append(name);
    push_char(out, '=');
    out.append(
        match value {
            Some(f) => f.name(),
            None => "-",
        },
    );
    push_char(out, ';');
    assert(out@ =~= old(out)@ + field(name@, format_text(value)));
}

impl ImgParams {
    /// Writes the canonical text of the parameters.
    pub fn canonical_text(&self) -> (text: String)
        ensures
            text@ == self.canonical(),
    {
        let ghost w = field("w"@, number_text(self.w));
        let ghost h = field("h"@, number_text(self.h));
        let ghost format = field("format"@, format_text(self.format));
        let ghost blur = field("blur"@, flag_text(self.blur));
        let ghost sharpen = field("sharpen"@, flag_text(self.sharpen));
        let ghost enhance = field("enhance"@, flag_text(self.enhance));
        let ghost facecrop = field("facecrop"@, flag_text(self.facecrop));
        let ghost facepad = field("facepad"@, number_text(self.facepad));
        let mut out = String::new();
        push_number_field(&mut out, "w", self.w);
        assert(out@ == w) by {
            assert(Seq::<char>::empty() + w =~= w);
        }
        push_number_field(&mut out, "h", self.h);
        push_format_field(&mut out, "format", self.format);
        push_flag_field(&mut out, "blur", self.blur);
        push_flag_field(&mut out, "sharpen", self.sharpen);
        push_flag_field(&mut out, "enhance", self.enhance);
        push_flag_field(&mut out, "facecrop", self.facecrop);
        push_number_field(&mut out, "facepad", self.facepad);
        assert(out@ == w + h + format + blur + sharpen + enhance + facecrop + facepad);
        proof {
            lemma_concat_assoc(w + h + format + blur + sharpen + enhance, facecrop, facepad);
            lemma_concat_assoc(w + h + format + blur + sharpen, enhance, facecrop + facepad);
            lemma_concat_assoc(w + h + format + blur, sharpen, enhance + (facecrop + facepad));
            lemma_concat_assoc(w + h + format, blur, sharpen + (enhance + (facecrop + facepad)));
            lemma_concat_assoc(w + h, format, blur + (sharpen + (enhance + (facecrop + facepad))));
            lemma_concat_assoc(w, h, format + (blur + (sharpen + (enhance + (facecrop + facepad)))));
        }
        out
    }

    /// The key that tells the cache entries of one image apart: the MD5
    /// digest of the canonical text.
    pub fn cacheable_param_key(&self) -> (digest: [u8; 16])
        ensures
            digest == self.param_key(),
    {
        let text = self.canonical_text();
        md5_digest(text.as_str().as_bytes())
    }
}

} // verus!
