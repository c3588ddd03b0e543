//! The silhouette drawn over the window being dragged: its colours and the
//! size-and-position label in its centre.

use vstd::prelude::*;

use crate::geometry::{fits_i32, Rect};
use crate::text::{push_signed_decimal, signed_decimal};

verus! {

/// Opacity of the whole silhouette window (0..255).
pub const ALPHA: u8 = 180;

/// A colour reference: red in the low byte, then green, then blue.
pub fn rgb(r: u8, g: u8, b: u8) -> (c: u32)
    ensures
        c == r + 256 * g + 65536 * b,
{
    let c: u32 = (r as u32) | ((g as u32) << 8u32) | ((b as u32) << 16u32);
    assert((r as u32) | ((g as u32) << 8u32) | ((b as u32) << 16u32) == r + 256 * g + 65536 * b)
        by (bit_vector);
    c
}

/// The silhouette fill colour.
pub fn accent() -> (c: u32)
    ensures
        c == 45 + 256 * 140 + 65536 * 240,
{
    rgb(45, 140, 240)
}

/// The label colour.
pub fn white() -> (c: u32)
    ensures
        c == 255 + 256 * 255 + 65536 * 255,
{
    rgb(255, 255, 255)
}

/// The two-line label: `W × H` over `(X, Y)`.
pub open spec fn label_of(r: Rect) -> Seq<char> {
    signed_decimal(r.w as int) + seq![' ', '\u{d7}', ' '] + signed_decimal(r.h as int) + seq![
        '\n',
        '(',
    ] + signed_decimal(r.x as int) + seq![',', ' '] + signed_decimal(r.y as int) + seq![')']
}

/// The label shown in the centre of the silhouette for rectangle `r`.
pub fn label(r: Rect) -> (s: String)
    ensures
        s@ == label_of(r),
        s@ == signed_decimal(r.w as int) + seq![' ', '\u{d7}', ' '] + signed_decimal(r.h as int)
            + seq!['\n'] + (seq!['('] + signed_decimal(r.x as int) + seq![',', ' ']
            + signed_decimal(r.y as int) + seq![')']),
{
    let mut s = String::new();
    push_signed_decimal(&mut s, r.w);
    s.push(' ');
    s.push('\u{d7}');
    s.push(' ');
    push_signed_decimal(&mut s, r.h);
    s.push('\n');
    s.push('(');
    push_signed_decimal(&mut s, r.x);
    s.push(',');
    s.push(' ');
    push_signed_decimal(&mut s, r.y);
    s.push(')');
    assert(s@ =~= label_of(r));
    s
}

/// The label's first line is the width, ` × `, the height; after the newline
/// comes `(`, the x position, `, `, the y position, `)`: the position is
/// always x first, whatever the values. Two rects that agree on size and x
/// give labels that agree up to the end of the x digits.
pub proof fn lemma_label_lines(r: Rect, q: Rect)
    ensures
        ({
            let first = signed_decimal(r.w as int) + seq![' ', '\u{d7}', ' '] + signed_decimal(
                r.h as int,
            );
            let n = first.len() as int;
            let l = label_of(r);
            &&& l.subrange(0, n) == first
            &&& l[n] == '\n'
            &&& l.subrange(n + 1, l.len() as int) == seq!['('] + signed_decimal(r.x as int)
                + seq![',', ' '] + signed_decimal(r.y as int) + seq![')']
            &&& (q.w == r.w && q.h == r.h && q.x == r.x) ==> label_of(q).subrange(
                0,
                n + 2 + signed_decimal(r.x as int).len(),
            ) == l.subrange(0, n + 2 + signed_decimal(r.x as int).len())
        }),
{
    let first = signed_decimal(r.w as int) + seq![' ', '\u{d7}', ' '] + signed_decimal(r.h as int);
    let n = first.len() as int;
    let pos = seq!['('] + signed_decimal(r.x as int) + seq![',', ' '] + signed_decimal(r.y as int)
        + seq![')'];
    let l = label_of(r);
    assert(l =~= first + seq!['\n'] + pos);
    assert(l.subrange(0, n) =~= first);
    assert(l.subrange(n + 1, l.len() as int) =~= pos);
    let k = n + 2 + signed_decimal(r.x as int).len();
    let pre = first + seq!['\n', '('] + signed_decimal(r.x as int);
    assert(l.subrange(0, k) =~= pre);
    if q.w == r.w && q.h == r.h && q.x == r.x {
        let posq = seq!['('] + signed_decimal(q.x as int) + seq![',', ' '] + signed_decimal(
            q.y as int,
        ) + seq![')'];
        assert(label_of(q) =~= first + seq!['\n'] + posq);
        assert(label_of(q).subrange(0, k) =~= pre);
    }
}

/// The top of the label's box that centres a label `text_h` high vertically
/// in a client area from `client_top` to `client_bottom`; a label taller
/// than the area starts at its top.
pub fn label_top(client_top: i32, client_bottom: i32, text_h: i32) -> (t: i32)
    requires
        fits_i32(client_bottom - client_top),
        fits_i32(client_bottom - client_top - text_h),
        fits_i32(client_top + (if client_bottom - client_top - text_h > 0 {
            (client_bottom - client_top - text_h) / 2
        } else {
            0
        })),
    ensures
        t == client_top + (if client_bottom - client_top - text_h > 0 {
            (client_bottom - client_top - text_h) / 2
        } else {
            0
        }),
        client_bottom - client_top >= text_h ==> t - client_top == (client_bottom - t) - text_h
            || t - client_top + 1 == (client_bottom - t) - text_h,
{
    let spare = client_bottom - client_top - text_h;
    let offset = if spare > 0 {
        spare / 2
    } else {
        0
    };
    client_top + offset
}

/// Whether [`label_top`] accepts these values: no intermediate overflows.
pub fn label_top_fits(client_top: i32, client_bottom: i32, text_h: i32) -> (r: bool)
    ensures
        r == (fits_i32(client_bottom - client_top) && fits_i32(client_bottom - client_top - text_h)
            && fits_i32(client_top + (if client_bottom - client_top - text_h > 0 {
            (client_bottom - client_top - text_h) / 2
        } else {
            0
        }))),
{
    let height: i64 = client_bottom as i64 - client_top as i64;
    let spare: i64 = height - text_h as i64;
    let offset: i64 = if spare > 0 {
        spare / 2
    } else {
        0
    };
    let top: i64 = client_top as i64 + offset;
    let lo: i64 = -2147483648;
    let hi: i64 = 2147483647;
    lo <= height && height <= hi && lo <= spare && spare <= hi && lo <= top && top <= hi
}

} // verus!
