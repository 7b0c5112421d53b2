use luminance_buffer::buffer::Buffer;
use luminance_buffer::buffer::BufferError;
use luminance_buffer::buffer::RawBuffer;
use luminance_buffer::state::GraphicsState;
use luminance_buffer::uniform::UniformBlock;

fn assert_uniform_compatible<T: UniformBlock>(_value: &T) {}

#[test]
fn length_is_fixed() {
    let mut st = GraphicsState::new();
    let mut b: Buffer<u32> = Buffer::new(&mut st, 5);
    assert_eq!(b.len(), 5);
    b.set(&mut st, 2, 11).unwrap();
    assert_eq!(b.len(), 5);
    b.clear(&mut st, 0).unwrap();
    assert_eq!(b.len(), 5);
    b.write_whole(&mut st, &[1, 2, 3, 4, 5]).unwrap();
    assert_eq!(b.len(), 5);
    b.write_whole(&mut st, &[1, 2]).unwrap_err();
    assert_eq!(b.len(), 5);
}

#[test]
fn zero_length_buffer() {
    let mut st = GraphicsState::new();
    let mut b: Buffer<u32> = Buffer::new(&mut st, 0);
    assert_eq!(b.len(), 0);
    assert_eq!(b.at(&mut st, 0), None);
    assert_eq!(b.set(&mut st, 0, 1), Err(BufferError::Overflow(0, 0)));
    assert_eq!(b.write_whole(&mut st, &[]), Ok(()));
    assert_eq!(b.whole(&mut st), Vec::<u32>::new());
    assert_eq!(b.clear(&mut st, 9), Ok(()));
}

#[test]
fn new_buffer_starts_at_default() {
    let mut st = GraphicsState::new();
    let b: Buffer<u32> = Buffer::new(&mut st, 3);
    assert_eq!(b.whole(&mut st), vec![0, 0, 0]);
}

#[test]
fn set_then_get_roundtrip() {
    let mut st = GraphicsState::new();
    let mut b: Buffer<i32> = Buffer::new(&mut st, 4);
    assert_eq!(b.set(&mut st, 0, -7), Ok(()));
    assert_eq!(b.set(&mut st, 3, 99), Ok(()));
    assert_eq!(b.at(&mut st, 0), Some(-7));
    assert_eq!(b.at(&mut st, 3), Some(99));
    assert_eq!(b.at(&mut st, 1), Some(0));
}

#[test]
fn out_of_bounds_get_and_set() {
    let mut st = GraphicsState::new();
    let mut b: Buffer<u32> = Buffer::new(&mut st, 3);
    assert_eq!(b.at(&mut st, 3), None);
    assert_eq!(b.at(&mut st, 1000), None);
    assert_eq!(b.set(&mut st, 3, 1), Err(BufferError::Overflow(3, 3)));
    assert_eq!(b.set(&mut st, 17, 1), Err(BufferError::Overflow(17, 3)));
    assert_eq!(b.whole(&mut st), vec![0, 0, 0]);
}

#[test]
fn write_whole_too_few_values() {
    let mut st = GraphicsState::new();
    let mut b: Buffer<u32> = Buffer::new(&mut st, 3);
    b.write_whole(&mut st, &[5, 6, 7]).unwrap();
    assert_eq!(
        b.write_whole(&mut st, &[1]),
        Err(BufferError::TooFewValues(1, 3))
    );
    assert_eq!(b.whole(&mut st), vec![5, 6, 7]);
}

#[test]
fn write_whole_too_many_values() {
    let mut st = GraphicsState::new();
    let mut b: Buffer<u32> = Buffer::new(&mut st, 3);
    b.write_whole(&mut st, &[5, 6, 7]).unwrap();
    assert_eq!(
        b.write_whole(&mut st, &[1, 2, 3, 4]),
        Err(BufferError::TooManyValues(4, 3))
    );
    assert_eq!(b.whole(&mut st), vec![5, 6, 7]);
}

#[test]
fn write_whole_exact_overwrites_in_order() {
    let mut st = GraphicsState::new();
    let mut b: Buffer<u32> = Buffer::new(&mut st, 4);
    assert_eq!(b.write_whole(&mut st, &[9, 8, 7, 6]), Ok(()));
    assert_eq!(b.whole(&mut st), vec![9, 8, 7, 6]);
    assert_eq!(b.fill(&mut st, &[1, 2, 3, 4]), Ok(()));
    assert_eq!(b.whole(&mut st), vec![1, 2, 3, 4]);
}

#[test]
fn clear_equals_write_whole_of_copies() {
    let mut st = GraphicsState::new();
    let mut cleared: Buffer<u32> = Buffer::new(&mut st, 4);
    let mut written: Buffer<u32> = Buffer::new(&mut st, 4);
    assert_eq!(cleared.clear(&mut st, 7), Ok(()));
    assert_eq!(written.write_whole(&mut st, &[7, 7, 7, 7]), Ok(()));
    assert_eq!(cleared.whole(&mut st), vec![7, 7, 7, 7]);
    assert_eq!(cleared.whole(&mut st), written.whole(&mut st));
}

#[test]
fn erase_then_dispose_releases_once() {
    let mut st = GraphicsState::new();
    let b: Buffer<u32> = Buffer::new(&mut st, 8);
    assert_eq!(st.destroyed_count(), 0);
    let raw: RawBuffer = b.to_raw();
    assert_eq!(st.destroyed_count(), 0);
    raw.dispose(&mut st);
    assert_eq!(st.destroyed_count(), 1);
}

#[test]
fn erase_via_from_then_dispose_releases_once() {
    let mut st = GraphicsState::new();
    let b: Buffer<u32> = Buffer::new(&mut st, 2);
    let raw = RawBuffer::from(b);
    assert_eq!(st.destroyed_count(), 0);
    raw.dispose(&mut st);
    assert_eq!(st.destroyed_count(), 1);
}

#[test]
fn dispose_typed_buffer_releases_once() {
    let mut st = GraphicsState::new();
    let first: Buffer<u32> = Buffer::new(&mut st, 1);
    let second: Buffer<u32> = Buffer::new(&mut st, 1);
    first.dispose(&mut st);
    assert_eq!(st.destroyed_count(), 1);
    second.dispose(&mut st);
    assert_eq!(st.destroyed_count(), 2);
}

#[test]
fn immutable_view_reads_buffer_contents() {
    let mut st = GraphicsState::new();
    let mut b: Buffer<u32> = Buffer::new(&mut st, 3);
    b.write_whole(&mut st, &[4, 5, 6]).unwrap();
    let view = b.as_slice(&mut st).unwrap();
    assert_eq!(view.len(), 3);
    assert_eq!(view.at(0), Some(4));
    assert_eq!(view.at(2), Some(6));
    assert_eq!(view.at(3), None);
    assert_eq!(view.to_vec(), vec![4, 5, 6]);
    view.release(&mut st);
    assert_eq!(b.whole(&mut st), vec![4, 5, 6]);
}

#[test]
fn second_view_fails_until_release() {
    let mut st = GraphicsState::new();
    let b: Buffer<u32> = Buffer::new(&mut st, 2);
    let view = b.as_slice(&mut st).unwrap();
    match b.as_slice(&mut st) {
        Err(BufferError::MapFailed) => {}
        _ => panic!("an overlapping map must be refused"),
    }
    view.release(&mut st);
    let again = b.as_slice(&mut st).unwrap();
    again.release(&mut st);
}

#[test]
fn view_mutation_visible_after_release() {
    let mut st = GraphicsState::new();
    let mut b: Buffer<u32> = Buffer::new(&mut st, 3);
    b.write_whole(&mut st, &[1, 2, 3]).unwrap();
    let mut view = b.as_slice_mut(&mut st).unwrap();
    assert_eq!(view.at(1), Some(2));
    view.set(1, 42);
    assert_eq!(view.at(1), Some(42));
    view.release(&mut b, &mut st);
    assert_eq!(b.whole(&mut st), vec![1, 42, 3]);
}

#[test]
fn typed_f32_scenario() {
    let mut st = GraphicsState::new();
    let mut b: Buffer<f32> = Buffer::new(&mut st, 5);
    assert_eq!(b.fill(&mut st, &[1.0, 2.0, 3.0, 4.0, 5.0]), Ok(()));
    assert_eq!(b.whole(&mut st), vec![1.0, 2.0, 3.0, 4.0, 5.0]);
    assert_eq!(b.set(&mut st, 3, 3.14), Ok(()));
    assert_eq!(b.at(&mut st, 3), Some(3.14));
    assert_eq!(b.at(&mut st, 10), None);
    assert_eq!(b.set(&mut st, 10, 0.0), Err(BufferError::Overflow(10, 5)));
}

#[test]
fn uniform_block_membership() {
    assert_uniform_compatible(&1u8);
    assert_uniform_compatible(&2u16);
    assert_uniform_compatible(&3u32);
    assert_uniform_compatible(&4i8);
    assert_uniform_compatible(&5i16);
    assert_uniform_compatible(&6i32);
    assert_uniform_compatible(&true);
    assert_uniform_compatible(&[1u32, 2u32]);
    assert_uniform_compatible(&[1i16, 2i16, 3i16]);
    assert_uniform_compatible(&[true, false, true, false]);
    assert_uniform_compatible(&(1u8, 2u32));
    assert_uniform_compatible(&(1u8, 2u32, (3i32, true)));
}
