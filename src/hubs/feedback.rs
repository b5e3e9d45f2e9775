//! Turning the raw bytes of a port value into samples, by the mode's value format.

use vstd::prelude::*;
use crate::codes::DatasetType;
use crate::error::Error;
use crate::notifications::{PortValueSingleFormat, ValueFormatType};

verus! {

/// How many bytes one sample of a dataset type takes.
pub open spec fn sample_width(t: DatasetType) -> int {
    match t {
        DatasetType::Bits8 => 1,
        DatasetType::Bits16 => 2,
        _ => 4,
    }
}

/// Two bytes, least significant first, read as a signed 16-bit value.
pub open spec fn signed16(lo: u8, hi: u8) -> int {
    let u = lo + 256 * hi;
    if u < 32768 { u } else { u - 65536 }
}

/// Four bytes, least significant first, read as a signed 32-bit value.
pub open spec fn signed32(b0: u8, b1: u8, b2: u8, b3: u8) -> int {
    let u = b0 + 256 * b1 + 65536 * b2 + 16777216 * b3;
    if u < 2147483648 { u } else { u - 4294967296 }
}

/// The `i`-th sample of an integer dataset type in `data`.
pub open spec fn sample_value(t: DatasetType, data: Seq<u8>, i: int) -> int {
    match t {
        DatasetType::Bits8 => if data[i] < 128 { data[i] as int } else { data[i] - 256 },
        DatasetType::Bits16 => signed16(data[2 * i], data[2 * i + 1]),
        _ => signed32(data[4 * i], data[4 * i + 1], data[4 * i + 2], data[4 * i + 3]),
    }
}

/// The `i`-th four-byte group of `data`, least significant first: the bits of a float sample.
pub open spec fn sample_bits(data: Seq<u8>, i: int) -> int {
    data[4 * i] + 256 * data[4 * i + 1] + 65536 * data[4 * i + 2] + 16777216 * data[4 * i + 3]
}

fn read_sample(t: DatasetType, data: &[u8], i: usize) -> (r: i32)
    requires
        t != DatasetType::Float,
        (i + 1) * sample_width(t) <= data@.len(),
    ensures
        r == sample_value(t, data@, i as int),
{
    let n = data.len();
    match t {
        DatasetType::Bits8 => {
            let b = data[i];
            if b < 128 { b as i32 } else { b as i32 - 256 }
        },
        DatasetType::Bits16 => {
            assert(sample_width(t) == 2);
            assert(2 * i + 2 <= n) by (nonlinear_arith)
                requires
                    (i + 1) * 2 <= n,
            ;
            let u = data[2 * i] as i32 + 256 * (data[2 * i + 1] as i32);
            if u < 32768 { u } else { u - 65536 }
        },
        _ => {
            assert(sample_width(t) == 4);
            assert(4 * i + 4 <= n) by (nonlinear_arith)
                requires
                    (i + 1) * 4 <= n,
            ;
            let u = data[4 * i] as i64 + 256 * (data[4 * i + 1] as i64) + 65536 * (data[4 * i
                + 2] as i64) + 16777216 * (data[4 * i + 3] as i64);
            if u < 2147483648 { u as i32 } else { (u - 4294967296) as i32 }
        },
    }
}

/// The first `count` integer samples of `data`. A float format is left to the caller
/// (see `decode_float_bits`); data too short for `count` samples is malformed.
pub fn decode_samples(t: DatasetType, count: u8, data: &[u8]) -> (r: Result<Vec<i32>, Error>)
    ensures
        t == DatasetType::Float ==> r == Err::<Vec<i32>, Error>(Error::Unsupported),
        t != DatasetType::Float && data@.len() < count * sample_width(t) ==> r == Err::<
            Vec<i32>,
            Error,
        >(Error::Malformed),
        t != DatasetType::Float && data@.len() >= count * sample_width(t) ==> (r matches Ok(v)
            && v@.len() == count && forall|i: int|
            0 <= i < count ==> #[trigger] v@[i] == sample_value(t, data@, i)),
{
    if t == DatasetType::Float {
        return Err(Error::Unsupported);
    }
    let w: usize = match t {
        DatasetType::Bits8 => 1,
        DatasetType::Bits16 => 2,
        _ => 4,
    };
    if data.len() < (count as usize) * w {
        return Err(Error::Malformed);
    }
    let mut v: Vec<i32> = Vec::new();
    let mut i: usize = 0;
    while i < count as usize
        invariant
            t != DatasetType::Float,
            w == sample_width(t),
            count * w <= data@.len(),
            i <= count,
            v@.len() == i,
            forall|j: int| 0 <= j < i ==> #[trigger] v@[j] == sample_value(t, data@, j),
        decreases count - i,
    {
        assert((i + 1) * w <= count * w) by (nonlinear_arith)
            requires
                i < count,
                w > 0,
        ;
        v.push(read_sample(t, data, i));
        i = i + 1;
    }
    Ok(v)
}

/// The bit patterns of the first `count` float samples of `data`.
pub fn decode_float_bits(count: u8, data: &[u8]) -> (r: Result<Vec<u32>, Error>)
    ensures
        data@.len() < 4 * count ==> r == Err::<Vec<u32>, Error>(Error::Malformed),
        data@.len() >= 4 * count ==> (r matches Ok(v) && v@.len() == count && forall|i: int|
            0 <= i < count ==> #[trigger] v@[i] == sample_bits(data@, i)),
{
    if data.len() < 4 * (count as usize) {
        return Err(Error::Malformed);
    }
    let mut v: Vec<u32> = Vec::new();
    let mut i: usize = 0;
    while i < count as usize
        invariant
            4 * count <= data@.len(),
            i <= count,
            v@.len() == i,
            forall|j: int| 0 <= j < i ==> #[trigger] v@[j] == sample_bits(data@, j),
        decreases count - i,
    {
        let u = data[4 * i] as u32 + 256 * (data[4 * i + 1] as u32) + 65536 * (data[4 * i
            + 2] as u32) + 16777216 * (data[4 * i + 3] as u32);
        v.push(u);
        i = i + 1;
    }
    Ok(v)
}

/// A subscriber's view of one single-value sample: `None` for a sample of another port,
/// else the sample's values decoded by the mode's value format.
pub fn port_samples(v: &PortValueSingleFormat, port: u8, format: ValueFormatType) -> (r: Option<
    Result<Vec<i32>, Error>,
>)
    ensures
        r is None <==> v.port_id != port,
        format.dataset_type == DatasetType::Float && v.port_id == port ==> r == Some(
            Err::<Vec<i32>, Error>(Error::Unsupported),
        ),
        format.dataset_type != DatasetType::Float && v.port_id == port && v.data@.len()
            < format.number_of_datasets * sample_width(format.dataset_type) ==> r == Some(
            Err::<Vec<i32>, Error>(Error::Malformed),
        ),
        format.dataset_type != DatasetType::Float && v.port_id == port && v.data@.len()
            >= format.number_of_datasets * sample_width(format.dataset_type) ==> (r matches Some(
            Ok(s),
        ) && s@.len() == format.number_of_datasets && forall|i: int|
            0 <= i < format.number_of_datasets ==> #[trigger] s@[i] == sample_value(
                format.dataset_type,
                v.data@,
                i,
            )),
{
    if v.port_id != port {
        return None;
    }
    Some(decode_samples(format.dataset_type, format.number_of_datasets, v.data.as_slice()))
}

} // verus!
