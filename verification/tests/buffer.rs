use frame_scheduler::buffer::DrawCommandBuffer;

#[test]
fn batches_come_out_in_the_order_of_their_arrival() {
    let mut buffer: DrawCommandBuffer<&str> = DrawCommandBuffer::new();
    assert!(buffer.is_empty());
    buffer.push("first");
    buffer.push("second");
    buffer.push("third");
    assert_eq!(buffer.len(), 3);
    assert!(!buffer.is_empty());
    assert_eq!(buffer.drain(), vec!["first", "second", "third"]);
}

#[test]
fn a_drained_buffer_hands_nothing_out_twice() {
    let mut buffer: DrawCommandBuffer<u32> = DrawCommandBuffer::new();
    buffer.push(1);
    buffer.push(2);
    assert_eq!(buffer.drain(), vec![1, 2]);
    assert!(buffer.is_empty());
    assert_eq!(buffer.len(), 0);
    assert_eq!(buffer.drain(), Vec::<u32>::new());
    buffer.push(3);
    assert_eq!(buffer.drain(), vec![3]);
}
