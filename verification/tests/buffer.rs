use luminance::buffer::{Buffer, BufferError, HasBuffer};
use luminance::host::Host;

type Raw = <Host as HasBuffer<u32>>::ABuffer;

fn raw(elements: usize) -> Raw {
    <Host as HasBuffer<u32>>::new(elements * 4)
}

fn read(buffer: &Raw, offset: usize) -> Option<u32> {
    <Host as HasBuffer<u32>>::read(buffer, offset).copied()
}

fn read_whole(buffer: &Raw) -> Vec<u32> {
    <Host as HasBuffer<u32>>::read_whole(buffer)
}

fn write(buffer: &mut Raw, x: u32, offset: usize) -> Result<(), BufferError> {
    <Host as HasBuffer<u32>>::write(buffer, x, offset)
}

fn write_whole(buffer: &mut Raw, values: &Vec<u32>) -> Result<(), BufferError> {
    <Host as HasBuffer<u32>>::write_whole(buffer, values)
}

#[test]
fn get_gives_a_value_below_the_size_only() {
    let buffer: Buffer<Host, (), u32> = Buffer::new((), 4);
    for i in 0..4 {
        assert!(buffer.get(i).is_some());
    }
    for i in [4, 5, 10, 1000, u32::MAX] {
        assert!(buffer.get(i).is_none());
    }
}

#[test]
fn get_past_a_new_buffer_is_absent() {
    let buffer: Buffer<Host, (), u32> = Buffer::new((), 4);
    assert_eq!(buffer.get(10), None);
}

#[test]
fn size_is_the_size_asked_for() {
    let buffer: Buffer<Host, (), u64> = Buffer::new((), 7);
    assert_eq!(buffer.size(), 7);
    let empty: Buffer<Host, (), u8> = Buffer::new((), 0);
    assert_eq!(empty.size(), 0);
    assert_eq!(empty.get(0), None);
}

#[test]
fn elements_without_a_size_take_no_storage() {
    let mut buffer: Buffer<Host, (), ()> = Buffer::new((), 5);
    assert_eq!(buffer.size(), 5);
    assert_eq!(buffer.get(0), None);
    buffer.clear(());
    assert_eq!(buffer.size(), 5);
    assert_eq!(buffer.get(0), None);
}

#[test]
fn size_stays_through_reads_and_clears() {
    let mut buffer: Buffer<Host, (), u16> = Buffer::new((), 3);
    assert_eq!(buffer.size(), 3);
    let _ = buffer.get(1);
    let _ = buffer.get(7);
    assert_eq!(buffer.size(), 3);
    buffer.clear(4);
    assert_eq!(buffer.size(), 3);
    let _ = buffer[2];
    buffer.clear(5);
    assert_eq!(buffer.size(), 3);
    assert_eq!(buffer.get(3), None);
}

#[test]
fn new_asks_for_size_times_element_bytes() {
    let bytes: Buffer<Host, (), u8> = Buffer::new((), 6);
    let words: Buffer<Host, (), u64> = Buffer::new((), 6);
    assert!(bytes.get(5).is_some());
    assert!(bytes.get(6).is_none());
    assert!(words.get(5).is_some());
    assert!(words.get(6).is_none());
}

#[test]
fn host_storage_holds_whole_elements_only() {
    let cut = <Host as HasBuffer<u32>>::new(11);
    assert_eq!(read_whole(&cut).len(), 2);
    let none = <Host as HasBuffer<u32>>::new(3);
    assert_eq!(read_whole(&none).len(), 0);
}

#[test]
fn host_storage_starts_with_default_values() {
    let buffer = raw(3);
    assert_eq!(read_whole(&buffer), vec![0, 0, 0]);
}

#[test]
fn clear_fills_every_element() {
    let mut buffer: Buffer<Host, (), u32> = Buffer::new((), 5);
    buffer.clear(42);
    for i in 0..5 {
        assert_eq!(buffer.get(i), Some(&42));
    }
    assert_eq!(buffer.get(5), None);
    assert_eq!(buffer.size(), 5);
}

#[test]
fn clear_twice_keeps_the_last_value() {
    let mut buffer: Buffer<Host, (), i16> = Buffer::new((), 3);
    buffer.clear(-1);
    buffer.clear(8);
    for i in 0..3 {
        assert_eq!(buffer.get(i), Some(&8));
    }
}

#[test]
fn clear_of_an_empty_buffer_does_nothing() {
    let mut buffer: Buffer<Host, (), u32> = Buffer::new((), 0);
    buffer.clear(1);
    assert_eq!(buffer.get(0), None);
    assert_eq!(buffer.size(), 0);
}

#[test]
fn index_gives_the_element_that_get_gives() {
    let mut buffer: Buffer<Host, (), u32> = Buffer::new((), 4);
    buffer.clear(17);
    for i in 0..4 {
        assert_eq!(Some(&buffer[i]), buffer.get(i));
    }
    assert_eq!(buffer[3], 17);
}

#[test]
fn marker_has_no_part_in_the_buffer() {
    struct Marker;
    let mut buffer: Buffer<Host, Marker, u8> = Buffer::new(Marker, 2);
    buffer.clear(3);
    assert_eq!(buffer.get(1), Some(&3));
}

#[test]
fn write_overflows_exactly_from_the_size_on() {
    let mut buffer = raw(4);
    for offset in 0..4 {
        assert_eq!(write(&mut buffer, 1, offset), Ok(()));
    }
    for offset in [4, 5, 100, usize::MAX] {
        assert_eq!(write(&mut buffer, 2, offset), Err(BufferError::Overflow));
    }
    assert_eq!(read_whole(&buffer), vec![1, 1, 1, 1]);
}

#[test]
fn write_is_read_back_at_its_offset() {
    let mut buffer = raw(4);
    assert_eq!(write(&mut buffer, 7, 2), Ok(()));
    assert_eq!(read(&buffer, 2), Some(7));
    assert_eq!(read_whole(&buffer), vec![0, 0, 7, 0]);
    assert_eq!(write(&mut buffer, 9, 0), Ok(()));
    assert_eq!(read_whole(&buffer), vec![9, 0, 7, 0]);
}

#[test]
fn failed_write_leaves_the_buffer() {
    let mut buffer = raw(2);
    assert_eq!(write_whole(&mut buffer, &vec![5, 6]), Ok(()));
    assert_eq!(write(&mut buffer, 7, 2), Err(BufferError::Overflow));
    assert_eq!(read_whole(&buffer), vec![5, 6]);
}

#[test]
fn write_into_an_empty_buffer_overflows() {
    let mut buffer = raw(0);
    assert_eq!(write(&mut buffer, 1, 0), Err(BufferError::Overflow));
    assert_eq!(read(&buffer, 0), None);
}

#[test]
fn read_is_absent_from_the_size_on() {
    let buffer = raw(3);
    assert_eq!(read(&buffer, 2), Some(0));
    assert_eq!(read(&buffer, 3), None);
    assert_eq!(read(&buffer, usize::MAX), None);
}

#[test]
fn write_whole_of_too_many_values_fails() {
    let mut buffer = raw(3);
    assert_eq!(write_whole(&mut buffer, &vec![1, 2, 3, 4]), Err(BufferError::TooManyValues));
    assert_eq!(read_whole(&buffer), vec![0, 0, 0]);
}

#[test]
fn write_whole_of_a_full_set_is_read_back() {
    let mut buffer = raw(3);
    let values = vec![4, 5, 6];
    assert_eq!(write_whole(&mut buffer, &values), Ok(()));
    assert_eq!(read_whole(&buffer), values);
}

#[test]
fn write_whole_of_fewer_values_keeps_the_rest() {
    let mut buffer = raw(4);
    assert_eq!(write_whole(&mut buffer, &vec![1, 2, 3, 4]), Ok(()));
    assert_eq!(write_whole(&mut buffer, &vec![8, 9]), Ok(()));
    assert_eq!(read_whole(&buffer), vec![8, 9, 3, 4]);
}

#[test]
fn write_whole_of_no_values_changes_nothing() {
    let mut buffer = raw(2);
    assert_eq!(write_whole(&mut buffer, &vec![1, 2]), Ok(()));
    assert_eq!(write_whole(&mut buffer, &Vec::new()), Ok(()));
    assert_eq!(read_whole(&buffer), vec![1, 2]);
}

#[test]
fn buffer_errors_differ() {
    assert_ne!(BufferError::Overflow, BufferError::TooManyValues);
    assert_eq!(format!("{:?}", BufferError::Overflow), "Overflow");
    assert_eq!(format!("{:?}", BufferError::TooManyValues), "TooManyValues");
}
