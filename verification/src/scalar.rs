//! Bare integers as operands: a scalar has no shape, costs nothing, and every
//! coordinate reads as the scalar itself.

use crate::traits::{Flops, One, UnsafeGet, Zero};
use vstd::prelude::*;

verus! {

impl Flops for i8 {
    open spec fn cost() -> nat {
        0
    }

    fn flops() -> (n: usize) {
        0
    }
}

impl UnsafeGet for i8 {
    type Output = i8;

    open spec fn readable(&self, i: int, j: int) -> bool {
        true
    }

    open spec fn yields(&self, i: int, j: int, v: i8) -> bool {
        v == *self
    }

    fn unsafe_get(&self, at: (u32, u32)) -> (v: i8) {
        *self
    }
}

impl Zero for i8 {
    open spec fn zero_value() -> i8 {
        0
    }

    fn zero() -> (z: i8) {
        0
    }
}

impl One for i8 {
    open spec fn one_value() -> i8 {
        1
    }

    fn one() -> (o: i8) {
        1
    }
}

impl Flops for i16 {
    open spec fn cost() -> nat {
        0
    }

    fn flops() -> (n: usize) {
        0
    }
}

impl UnsafeGet for i16 {
    type Output = i16;

    open spec fn readable(&self, i: int, j: int) -> bool {
        true
    }

    open spec fn yields(&self, i: int, j: int, v: i16) -> bool {
        v == *self
    }

    fn unsafe_get(&self, at: (u32, u32)) -> (v: i16) {
        *self
    }
}

impl Zero for i16 {
    open spec fn zero_value() -> i16 {
        0
    }

    fn zero() -> (z: i16) {
        0
    }
}

impl One for i16 {
    open spec fn one_value() -> i16 {
        1
    }

    fn one() -> (o: i16) {
        1
    }
}

impl Flops for i32 {
    open spec fn cost() -> nat {
        0
    }

    fn flops() -> (n: usize) {
        0
    }
}

impl UnsafeGet for i32 {
    type Output = i32;

    open spec fn readable(&self, i: int, j: int) -> bool {
        true
    }

    open spec fn yields(&self, i: int, j: int, v: i32) -> bool {
        v == *self
    }

    fn unsafe_get(&self, at: (u32, u32)) -> (v: i32) {
        *self
    }
}

impl Zero for i32 {
    open spec fn zero_value() -> i32 {
        0
    }

    fn zero() -> (z: i32) {
        0
    }
}

impl One for i32 {
    open spec fn one_value() -> i32 {
        1
    }

    fn one() -> (o: i32) {
        1
    }
}

impl Flops for i64 {
    open spec fn cost() -> nat {
        0
    }

    fn flops() -> (n: usize) {
        0
    }
}

impl UnsafeGet for i64 {
    type Output = i64;

    open spec fn readable(&self, i: int, j: int) -> bool {
        true
    }

    open spec fn yields(&self, i: int, j: int, v: i64) -> bool {
        v == *self
    }

    fn unsafe_get(&self, at: (u32, u32)) -> (v: i64) {
        *self
    }
}

impl Zero for i64 {
    open spec fn zero_value() -> i64 {
        0
    }

    fn zero() -> (z: i64) {
        0
    }
}

impl One for i64 {
    open spec fn one_value() -> i64 {
        1
    }

    fn one() -> (o: i64) {
        1
    }
}

impl Flops for isize {
    open spec fn cost() -> nat {
        0
    }

    fn flops() -> (n: usize) {
        0
    }
}

impl UnsafeGet for isize {
    type Output = isize;

    open spec fn readable(&self, i: int, j: int) -> bool {
        true
    }

    open spec fn yields(&self, i: int, j: int, v: isize) -> bool {
        v == *self
    }

    fn unsafe_get(&self, at: (u32, u32)) -> (v: isize) {
        *self
    }
}

impl Zero for isize {
    open spec fn zero_value() -> isize {
        0
    }

    fn zero() -> (z: isize) {
        0
    }
}

impl One for isize {
    open spec fn one_value() -> isize {
        1
    }

    fn one() -> (o: isize) {
        1
    }
}

impl Flops for u8 {
    open spec fn cost() -> nat {
        0
    }

    fn flops() -> (n: usize) {
        0
    }
}

impl UnsafeGet for u8 {
    type Output = u8;

    open spec fn readable(&self, i: int, j: int) -> bool {
        true
    }

    open spec fn yields(&self, i: int, j: int, v: u8) -> bool {
        v == *self
    }

    fn unsafe_get(&self, at: (u32, u32)) -> (v: u8) {
        *self
    }
}

impl Zero for u8 {
    open spec fn zero_value() -> u8 {
        0
    }

    fn zero() -> (z: u8) {
        0
    }
}

impl One for u8 {
    open spec fn one_value() -> u8 {
        1
    }

    fn one() -> (o: u8) {
        1
    }
}

impl Flops for u16 {
    open spec fn cost() -> nat {
        0
    }

    fn flops() -> (n: usize) {
        0
    }
}

impl UnsafeGet for u16 {
    type Output = u16;

    open spec fn readable(&self, i: int, j: int) -> bool {
        true
    }

    open spec fn yields(&self, i: int, j: int, v: u16) -> bool {
        v == *self
    }

    fn unsafe_get(&self, at: (u32, u32)) -> (v: u16) {
        *self
    }
}

impl Zero for u16 {
    open spec fn zero_value() -> u16 {
        0
    }

    fn zero() -> (z: u16) {
        0
    }
}

impl One for u16 {
    open spec fn one_value() -> u16 {
        1
    }

    fn one() -> (o: u16) {
        1
    }
}

impl Flops for u32 {
    open spec fn cost() -> nat {
        0
    }

    fn flops() -> (n: usize) {
        0
    }
}

impl UnsafeGet for u32 {
    type Output = u32;

    open spec fn readable(&self, i: int, j: int) -> bool {
        true
    }

    open spec fn yields(&self, i: int, j: int, v: u32) -> bool {
        v == *self
    }

    fn unsafe_get(&self, at: (u32, u32)) -> (v: u32) {
        *self
    }
}

impl Zero for u32 {
    open spec fn zero_value() -> u32 {
        0
    }

    fn zero() -> (z: u32) {
        0
    }
}

impl One for u32 {
    open spec fn one_value() -> u32 {
        1
    }

    fn one() -> (o: u32) {
        1
    }
}

impl Flops for u64 {
    open spec fn cost() -> nat {
        0
    }

    fn flops() -> (n: usize) {
        0
    }
}

impl UnsafeGet for u64 {
    type Output = u64;

    open spec fn readable(&self, i: int, j: int) -> bool {
        true
    }

    open spec fn yields(&self, i: int, j: int, v: u64) -> bool {
        v == *self
    }

    fn unsafe_get(&self, at: (u32, u32)) -> (v: u64) {
        *self
    }
}

impl Zero for u64 {
    open spec fn zero_value() -> u64 {
        0
    }

    fn zero() -> (z: u64) {
        0
    }
}

impl One for u64 {
    open spec fn one_value() -> u64 {
        1
    }

    fn one() -> (o: u64) {
        1
    }
}

impl Flops for usize {
    open spec fn cost() -> nat {
        0
    }

    fn flops() -> (n: usize) {
        0
    }
}

impl UnsafeGet for usize {
    type Output = usize;

    open spec fn readable(&self, i: int, j: int) -> bool {
        true
    }

    open spec fn yields(&self, i: int, j: int, v: usize) -> bool {
        v == *self
    }

    fn unsafe_get(&self, at: (u32, u32)) -> (v: usize) {
        *self
    }
}

impl Zero for usize {
    open spec fn zero_value() -> usize {
        0
    }

    fn zero() -> (z: usize) {
        0
    }
}

impl One for usize {
    open spec fn one_value() -> usize {
        1
    }

    fn one() -> (o: usize) {
        1
    }
}

} // verus!
