use vstd::prelude::*;
use vstd::arithmetic::div_mod::{
    lemma_div_denominator, lemma_div_pos_is_pos, lemma_fundamental_div_mod,
    lemma_fundamental_div_mod_converse, lemma_mod_bound,
};

verus! {

/// The field of `value` that starts at bit weight `unit` and takes
/// `modulus` values.
pub open spec fn field_of(value: u16, unit: int, modulus: int) -> int {
    (value as int / unit) % modulus
}

/// `value` with the field at bit weight `unit` taking `modulus` values
/// replaced by `v`: the bits below and above the field are kept.
pub open spec fn with_field(value: u16, unit: int, modulus: int, v: int) -> int {
    (value as int / (unit * modulus)) * (unit * modulus) + v * unit + value as int % unit
}

proof fn lemma_with_field(value: u16, unit: int, modulus: int, v: int)
    requires
        1 <= unit,
        1 <= modulus,
        unit * modulus <= 65536,
        65536int % (unit * modulus) == 0,
        0 <= v < modulus,
    ensures
        0 <= with_field(value, unit, modulus, v) < 65536,
        (with_field(value, unit, modulus, v) / unit) % modulus == v,
        with_field(value, unit, modulus, v) % unit == value as int % unit,
        with_field(value, unit, modulus, v) / (unit * modulus) == value as int / (unit * modulus),
{
    let val: int = value as int;
    let um: int = unit * modulus;
    assert(um >= 1) by (nonlinear_arith)
        requires
            um == unit * modulus,
            unit >= 1,
            modulus >= 1,
    ;
    let q: int = val / um;
    let rest: int = val % unit;
    let r: int = with_field(value, unit, modulus, v);
    lemma_mod_bound(val, unit);
    lemma_div_pos_is_pos(val, um);
    assert(q * um + v * unit == (q * modulus + v) * unit) by (nonlinear_arith)
        requires
            um == unit * modulus,
    ;
    assert(r == (q * modulus + v) * unit + rest);
    lemma_fundamental_div_mod_converse(r, unit, q * modulus + v, rest);
    lemma_fundamental_div_mod_converse(q * modulus + v, modulus, q, v);
    assert(r >= 0) by (nonlinear_arith)
        requires
            r == (q * modulus + v) * unit + rest,
            q >= 0,
            modulus >= 1,
            v >= 0,
            unit >= 1,
            rest >= 0,
    ;
    lemma_div_denominator(r, unit, modulus);
    let k: int = 65536int / um;
    lemma_fundamental_div_mod(65536int, um);
    lemma_fundamental_div_mod(val, um);
    lemma_mod_bound(val, um);
    assert(q < k) by (nonlinear_arith)
        requires
            val == um * q + val % um,
            val % um >= 0,
            val < 65536,
            65536int == um * k + 0,
            um >= 1,
    ;
    assert(v * unit <= (modulus - 1) * unit) by (nonlinear_arith)
        requires
            v <= modulus - 1,
            unit >= 1,
    ;
    assert((modulus - 1) * unit + unit == um) by (nonlinear_arith)
        requires
            um == unit * modulus,
    ;
    assert((q + 1) * um <= k * um) by (nonlinear_arith)
        requires
            q + 1 <= k,
            um >= 1,
    ;
    assert(q * um + um == (q + 1) * um) by (nonlinear_arith);
    assert(k * um == 65536int) by (nonlinear_arith)
        requires
            65536int == um * k,
    ;
    assert(r < 65536);
}

/// `value` with the field at bit weight `unit` taking `modulus` values
/// replaced by `v`.
pub fn replace_field(value: u16, unit: u32, modulus: u32, v: u16) -> (r: u16)
    requires
        1 <= unit,
        1 <= modulus,
        unit * modulus <= 65536,
        65536int % (unit * modulus) == 0,
        v < modulus,
    ensures
        r == with_field(value, unit as int, modulus as int, v as int),
        field_of(r, unit as int, modulus as int) == v,
        r as int % unit as int == value as int % unit as int,
        r as int / (unit * modulus) as int == value as int / (unit * modulus) as int,
{
    let um: u32 = unit * modulus;
    let val: u32 = value as u32;
    proof {
        assert(um >= 1) by (nonlinear_arith)
            requires
                um as int == unit as int * modulus as int,
                unit >= 1,
                modulus >= 1,
        ;
        lemma_with_field(value, unit as int, modulus as int, v as int);
    }
    assert((val / um) * um <= val) by (nonlinear_arith)
        requires
            um >= 1,
    ;
    assert(v as u32 * unit <= 65536) by (nonlinear_arith)
        requires
            v < modulus,
            unit * modulus <= 65536,
    ;
    let r: u32 = (val / um) * um + (v as u32) * unit + val % unit;
    r as u16
}

} // verus!
