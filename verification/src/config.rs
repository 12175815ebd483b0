//! The configuration of a flow layout and the column geometry it implies.

use vstd::prelude::*;
use vstd::arithmetic::div_mod::{
    lemma_div_is_ordered_by_denominator, lemma_fundamental_div_mod,
    lemma_fundamental_div_mod_converse, lemma_hoist_over_denominator,
};
use crate::geometry::is_pixel;
use crate::laws::columns::lemma_columns_within_content;

verus! {

/// The greatest integer that is not above the exact quotient of `a` by `b`.
pub open spec fn floor_div(a: int, b: int) -> int
    recommends
        b != 0,
{
    if b > 0 {
        a / b
    } else {
        (-a) / (-b)
    }
}

/// Padding, spacing and minimum column width of a flow layout, in pixels.
///
/// A minimum column width of zero switches column splitting off.
#[derive(Clone, Copy, Debug, PartialEq, Eq, Structural)]
pub struct FlowTableData {
    pub padding_top: i32,
    pub padding_right: i32,
    pub padding_bottom: i32,
    pub padding_left: i32,
    pub spacing_horizontal: i32,
    pub spacing_vertical: i32,
    pub min_column_width: i32,
}

/// The column geometry of a layout that splits its content into columns.
#[derive(Clone, Copy, Debug, PartialEq, Eq, Structural)]
pub struct Columns {
    pub count: i32,
    pub width: i32,
}

impl Default for FlowTableData {
    fn default() -> (d: Self)
        ensures
            d == FlowTableData::plain(),
    {
        FlowTableData {
            padding_top: 0,
            padding_right: 0,
            padding_bottom: 0,
            padding_left: 0,
            spacing_horizontal: 0,
            spacing_vertical: 0,
            min_column_width: 0,
        }
    }
}

impl FlowTableData {
    /// The configuration without padding, without spacing and without column
    /// splitting.
    pub open spec fn plain() -> FlowTableData {
        FlowTableData {
            padding_top: 0,
            padding_right: 0,
            padding_bottom: 0,
            padding_left: 0,
            spacing_horizontal: 0,
            spacing_vertical: 0,
            min_column_width: 0,
        }
    }

    /// Whether no value of the configuration is negative.
    pub open spec fn non_negative(self) -> bool {
        &&& self.padding_top >= 0
        &&& self.padding_right >= 0
        &&& self.padding_bottom >= 0
        &&& self.padding_left >= 0
        &&& self.spacing_horizontal >= 0
        &&& self.spacing_vertical >= 0
        &&& self.min_column_width >= 0
    }

    /// The width that is left for content in a container of width `w`.
    pub open spec fn content_width(self, w: int) -> int {
        w - self.padding_left - self.padding_right
    }

    /// Whether the content is split into columns of equal width.
    pub open spec fn splitting(self) -> bool {
        self.min_column_width > 0 && self.min_column_width + self.spacing_horizontal != 0
    }

    /// The number of columns in a container of width `w`: as many columns of
    /// the minimum width as fit side by side, and at least one.
    pub open spec fn column_count(self, w: int) -> int {
        if self.splitting() {
            let fit = 1 + floor_div(
                self.content_width(w) - self.min_column_width,
                self.min_column_width + self.spacing_horizontal,
            );
            if fit >= 1 {
                fit
            } else {
                1
            }
        } else {
            1
        }
    }

    /// The width of each column in a container of width `w`: the content
    /// width without the gaps between columns, shared out and rounded down.
    pub open spec fn column_width(self, w: int) -> int {
        let n = self.column_count(w);
        (self.content_width(w) - (n - 1) * self.spacing_horizontal) / n
    }

    /// Whether column count and column width are pixel values.
    pub open spec fn columns_fit(self, w: int) -> bool {
        is_pixel(self.column_count(w)) && is_pixel(self.column_width(w))
    }

    /// Tells whether the content is split into columns.
    pub fn is_splitting(&self) -> (b: bool)
        ensures
            b == self.splitting(),
    {
        let mcw: i64 = self.min_column_width as i64;
        let sh: i64 = self.spacing_horizontal as i64;
        mcw > 0 && mcw + sh != 0
    }

    /// Computes the column geometry for a container of width `w`.
    ///
    /// There is none where the layout does not split its content, nor where
    /// count or width is no pixel value. Where there is one, it has at least
    /// one column, and its columns with the gaps between them are not wider
    /// than the content.
    pub fn columns(&self, w: i32) -> (c: Option<Columns>)
        ensures
            c.is_some() == (self.splitting() && self.columns_fit(w as int)),
            c matches Some(k) ==> k.count == self.column_count(w as int) && k.width
                == self.column_width(w as int),
            c matches Some(k) ==> k.count >= 1 && k.count * k.width + (k.count - 1)
                * self.spacing_horizontal <= self.content_width(w as int),
    {
        proof {
            if self.splitting() {
                lemma_columns_within_content(*self, w as int);
            }
        }
        if !self.is_splitting() {
            return None;
        }
        // All of this is computed in 64 bits, where sums and differences of
        // a few pixel values cannot overflow, and divided between numbers
        // that are not negative.
        let mcw: i64 = self.min_column_width as i64;
        let sh: i64 = self.spacing_horizontal as i64;
        let content: i64 = w as i64 - self.padding_left as i64 - self.padding_right as i64;
        let spare: i64 = content - mcw;
        let pitch: i64 = mcw + sh;
        let n: i64 = if pitch > 0 {
            if spare >= pitch {
                proof {
                    lemma_div_is_ordered_by_denominator(spare as int, 1, pitch as int);
                }
                1 + spare / pitch
            } else {
                proof {
                    lemma_floor_below_one(spare as int, pitch as int);
                }
                1
            }
        } else {
            if spare <= pitch {
                proof {
                    lemma_div_is_ordered_by_denominator(-spare as int, 1, -pitch as int);
                }
                1 + (-spare) / (-pitch)
            } else {
                proof {
                    lemma_floor_below_one(-spare as int, -pitch as int);
                }
                1
            }
        };
        assert(n == self.column_count(w as int));
        let spread: i64 = content + sh;
        let share: i64 = if spread >= 0 {
            proof {
                lemma_div_is_ordered_by_denominator(spread as int, 1, n as int);
            }
            spread / n
        } else {
            proof {
                lemma_div_is_ordered_by_denominator(-spread + n - 1, 1, n as int);
                lemma_floor_of_negative(spread as int, n as int);
            }
            -((-spread + (n - 1)) / n)
        };
        let width: i64 = share - sh;
        proof {
            lemma_share_less_gap(content as int, sh as int, n as int);
        }
        assert(width == self.column_width(w as int));
        if n > i32::MAX as i64 || width < i32::MIN as i64 || width > i32::MAX as i64 {
            return None;
        }
        Some(Columns { count: n as i32, width: width as i32 })
    }
}

/// A quotient with a positive divisor is below one where the dividend is below
/// the divisor.
proof fn lemma_floor_below_one(a: int, b: int)
    requires
        b > 0,
        a < b,
    ensures
        a / b <= 0,
{
    lemma_fundamental_div_mod(a, b);
    assert(a / b <= 0) by (nonlinear_arith)
        requires
            b > 0,
            a < b,
            a == b * (a / b) + a % b,
            0 <= a % b,
    ;
}

/// Rounding a negative quotient down is rounding its opposite up.
proof fn lemma_floor_of_negative(a: int, n: int)
    requires
        a < 0,
        n > 0,
    ensures
        a / n == -((-a + (n - 1)) / n),
{
    let m = -a + (n - 1);
    let q = m / n;
    let r = m % n;
    lemma_fundamental_div_mod(m, n);
    assert(a == n * (-q) + (n - 1 - r)) by (nonlinear_arith)
        requires
            m == n * q + r,
            m == -a + (n - 1),
    ;
    lemma_fundamental_div_mod_converse(a, n, -q, n - 1 - r);
}

/// Sharing out what is left after `n - 1` gaps is sharing out the whole with
/// one more gap, less one gap.
proof fn lemma_share_less_gap(content: int, gap: int, n: int)
    requires
        n > 0,
    ensures
        (content - (n - 1) * gap) / n == (content + gap) / n - gap,
{
    lemma_hoist_over_denominator(content + gap, -gap, n as nat);
    assert(content + gap + (-gap) * n == content - (n - 1) * gap) by (nonlinear_arith);
}

} // verus!
