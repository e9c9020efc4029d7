use vortex_wasm::array::{materialize, Collector, Pull};
use vortex_wasm::error::Error;
use vortex_wasm::file::VortexFile;
use vortex_wasm::project::{HostValue, Number};
use vortex_wasm::scalar::{PType, PValue, Scalar};

fn row(v: u32) -> Scalar {
    Scalar::Primitive(PType::U32, Some(PValue::U32(v)))
}

fn chunk(from: u32, to: u32) -> Pull {
    Pull::Chunk((from..to).map(row).collect())
}

#[test]
fn every_row_can_be_read_and_the_next_cannot() {
    let array = materialize(vec![chunk(0, 3), chunk(3, 4), chunk(4, 9)]).unwrap();
    assert_eq!(array.row_count(), 9);
    for i in 0u32..9 {
        assert_eq!(array.get(i), Ok(HostValue::Number(Number::Unsigned(i as u64))));
    }
    assert_eq!(array.get(9), Err(Error::Bounds));
    assert_eq!(array.get(u32::MAX), Err(Error::Bounds));
}

#[test]
fn empty_sequence_gives_an_empty_array() {
    let array = materialize(vec![]).unwrap();
    assert_eq!(array.row_count(), 0);
    assert_eq!(array.get(0), Err(Error::Bounds));
}

#[test]
fn failed_second_chunk_gives_no_array() {
    let out = materialize(vec![chunk(0, 3), Pull::Failed, chunk(3, 6)]);
    assert_eq!(out.err(), Some(Error::Decode));
}

#[test]
fn failed_first_or_last_chunk_gives_no_array() {
    assert_eq!(materialize(vec![Pull::Failed]).err(), Some(Error::Decode));
    assert_eq!(materialize(vec![chunk(0, 3), Pull::Failed]).err(), Some(Error::Decode));
}

#[test]
fn unsupported_row_is_not_a_bounds_error() {
    let array = materialize(vec![Pull::Chunk(vec![row(1), Scalar::List])]).unwrap();
    assert_eq!(array.get(1), Err(Error::UnsupportedType));
    assert_eq!(array.get(2), Err(Error::Bounds));
}

#[test]
fn collector_is_terminal_after_a_failure() {
    let mut collector = Collector::new();
    assert_eq!(collector.accept(chunk(0, 2)), Ok(()));
    assert_eq!(collector.accept(Pull::Failed), Err(Error::Decode));
    assert_eq!(collector.accept(chunk(2, 4)), Err(Error::Decode));
    assert_eq!(collector.finish().err(), Some(Error::Decode));
}

#[test]
fn collector_keeps_chunks_in_order() {
    let mut collector = Collector::new();
    assert_eq!(collector.accept(chunk(5, 7)), Ok(()));
    assert_eq!(collector.accept(chunk(0, 1)), Ok(()));
    let array = collector.finish().unwrap();
    assert_eq!(array.row_count(), 3);
    assert_eq!(array.get(0), Ok(HostValue::Number(Number::Unsigned(5))));
    assert_eq!(array.get(1), Ok(HostValue::Number(Number::Unsigned(6))));
    assert_eq!(array.get(2), Ok(HostValue::Number(Number::Unsigned(0))));
}

#[test]
fn file_collects_its_chunks() {
    let file = VortexFile::from_blob(64);
    let array = file.collect(vec![chunk(0, 2), chunk(2, 4)]).unwrap();
    assert_eq!(array.row_count(), 4);
    assert_eq!(array.get(3), Ok(HostValue::Number(Number::Unsigned(3))));
    assert_eq!(file.collect(vec![chunk(0, 2), Pull::Failed]).err(), Some(Error::Decode));
}
