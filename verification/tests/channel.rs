use async_channel::{RecvError, SendError};
use bluest::error::{Error, ErrorKind};
use bluest::l2cap_channel::{
    L2capChannelReader, L2capChannelWriter, StreamCommand, StreamSide, QUEUE_ROOM,
};
use bluest::queue::{TryRecvError, TrySendError};
use bluest::read_loop::{ReadAction, ReadEvent, ReadLoop, POLL_MILLIS, READ_SIZE};
use bluest::types::{CBL2CAPChannel, NSStreamStatus};
use bluest::write_loop::{WriteAction, WriteEvent, WriteLoop};

const CHANNEL: CBL2CAPChannel = CBL2CAPChannel { id: 7 };

fn message(kind: ErrorKind, text: &str) -> Error {
    Error::Message {
        kind,
        message: text.to_string(),
    }
}

/// Takes a read loop that is about to ask for the status to the point of reading.
fn to_read(read_loop: &mut ReadLoop) {
    assert_eq!(read_loop.action(), ReadAction::AskStatus);
    let status = NSStreamStatus(2);
    assert_eq!(
        read_loop.step(ReadEvent::Status(status)),
        ReadAction::AskAvailable { status }
    );
    assert_eq!(
        read_loop.step(ReadEvent::Available(true)),
        ReadAction::Read { max: READ_SIZE }
    );
}

/// Lets a read loop read `bytes` from the stream.
fn feed(read_loop: &mut ReadLoop, bytes: &[u8]) -> ReadAction {
    to_read(read_loop);
    let mut buf = vec![0xEEu8; READ_SIZE];
    buf[..bytes.len()].copy_from_slice(bytes);
    read_loop.step(ReadEvent::Read {
        count: bytes.len() as isize,
        buf: &buf,
    })
}

#[test]
fn sizes() {
    assert_eq!(QUEUE_ROOM, 16);
    assert_eq!(READ_SIZE, 1024);
    assert_eq!(POLL_MILLIS, 10);
}

#[test]
fn new_reader_opens_the_input_stream() {
    let (_reader, open, read_loop) = L2capChannelReader::new(CHANNEL);
    assert_eq!(
        open,
        StreamCommand::Open {
            channel: CHANNEL,
            side: StreamSide::Input
        }
    );
    assert_eq!(read_loop.action(), ReadAction::AskStatus);
}

#[test]
fn new_writer_opens_the_output_stream() {
    let (_writer, open, _write_loop) = L2capChannelWriter::new(CHANNEL);
    assert_eq!(
        open,
        StreamCommand::Open {
            channel: CHANNEL,
            side: StreamSide::Output
        }
    );
}

#[test]
fn either_half_closes_both_streams() {
    let expected = vec![
        StreamCommand::Close {
            channel: CHANNEL,
            side: StreamSide::Input,
        },
        StreamCommand::Close {
            channel: CHANNEL,
            side: StreamSide::Output,
        },
    ];
    let (mut reader, _, _) = L2capChannelReader::new(CHANNEL);
    let (mut writer, _, _) = L2capChannelWriter::new(CHANNEL);
    assert_eq!(reader.close(), Ok(expected));
    assert_eq!(reader.close(), writer.close());
}

#[test]
fn try_read_of_an_empty_queue() {
    let (mut reader, _, _read_loop) = L2capChannelReader::new(CHANNEL);
    let mut buf = [9u8; 4];
    assert_eq!(
        reader.try_read(&mut buf),
        Err(message(ErrorKind::NotReady, "no received packet in queue"))
    );
    assert_eq!(buf, [9u8; 4]);
}

#[test]
fn try_read_after_the_loop_is_gone() {
    let (mut reader, _, mut read_loop) = L2capChannelReader::new(CHANNEL);
    assert_eq!(feed(&mut read_loop, &[1, 2]), ReadAction::AskStatus);
    drop(read_loop);
    let mut buf = [0u8; 4];
    // What is still in the queue can be read.
    assert_eq!(reader.try_read(&mut buf), Ok(2));
    assert_eq!(buf, [1, 2, 0, 0]);
    assert_eq!(
        reader.try_read(&mut buf),
        Err(message(ErrorKind::ConnectionFailed, "channel is closed"))
    );
    assert_eq!(buf, [1, 2, 0, 0]);
}

#[test]
fn packets_are_read_in_the_order_of_the_stream() {
    let (mut reader, _, mut read_loop) = L2capChannelReader::new(CHANNEL);
    assert_eq!(feed(&mut read_loop, &[1, 2, 3]), ReadAction::AskStatus);
    assert_eq!(feed(&mut read_loop, &[]), ReadAction::AskStatus);
    assert_eq!(feed(&mut read_loop, &[4]), ReadAction::AskStatus);
    let mut buf = [0u8; 5];
    assert_eq!(reader.try_read(&mut buf), Ok(3));
    assert_eq!(buf, [1, 2, 3, 0, 0]);
    assert_eq!(reader.try_read(&mut buf), Ok(0));
    assert_eq!(buf, [1, 2, 3, 0, 0]);
    assert_eq!(reader.try_read(&mut buf), Ok(1));
    assert_eq!(buf, [4, 2, 3, 0, 0]);
}

#[test]
fn a_packet_that_does_not_fit_is_lost() {
    let (mut reader, _, mut read_loop) = L2capChannelReader::new(CHANNEL);
    assert_eq!(feed(&mut read_loop, &[1, 2, 3]), ReadAction::AskStatus);
    assert_eq!(feed(&mut read_loop, &[4, 5]), ReadAction::AskStatus);
    let mut buf = [8u8; 2];
    assert_eq!(
        reader.try_read(&mut buf),
        Err(message(ErrorKind::InvalidParameter, "Buffer is too small"))
    );
    assert_eq!(buf, [8, 8]);
    assert_eq!(reader.try_read(&mut buf), Ok(2));
    assert_eq!(buf, [4, 5]);
}

#[test]
fn read_waits_on_the_queue() {
    let (mut reader, _, mut read_loop) = L2capChannelReader::new(CHANNEL);
    assert_eq!(feed(&mut read_loop, &[6, 7]), ReadAction::AskStatus);
    let received = futures_lite::future::block_on(reader.receive());
    let mut buf = [0u8; 3];
    assert_eq!(reader.read(received, &mut buf), Ok(2));
    assert_eq!(buf, [6, 7, 0]);
    drop(read_loop);
    let received = futures_lite::future::block_on(reader.receive());
    assert_eq!(
        reader.read(received, &mut buf),
        Err(message(ErrorKind::ConnectionFailed, "channel is closed"))
    );
    assert_eq!(buf, [6, 7, 0]);
}

#[test]
fn reads_of_both_sorts_in_a_row_take_one_packet_each() {
    let (mut reader, _, mut read_loop) = L2capChannelReader::new(CHANNEL);
    for i in 1..=6usize {
        let action = feed(&mut read_loop, &vec![i as u8; i]);
        assert_eq!(action, ReadAction::AskStatus);
    }
    let mut buf = vec![0u8; READ_SIZE];
    for i in 1..=6usize {
        let result = if i % 2 == 0 {
            let received = futures_lite::future::block_on(reader.receive());
            reader.read(received, &mut buf)
        } else {
            reader.try_read(&mut buf)
        };
        assert_eq!(result, Ok(i));
        assert_eq!(buf[..i], vec![i as u8; i][..]);
    }
    assert_eq!(
        reader.try_read(&mut buf),
        Err(message(ErrorKind::NotReady, "no received packet in queue"))
    );
}

#[test]
fn read_and_try_read_treat_a_packet_alike() {
    let (mut reader, _, _read_loop) = L2capChannelReader::new(CHANNEL);
    for length in 0..4usize {
        let packet = vec![5u8; length];
        let mut waited = [1u8; 2];
        let mut tried = [1u8; 2];
        assert_eq!(
            reader.read(Ok(packet.clone()), &mut waited),
            L2capChannelReader::try_read_received(Ok(packet), &mut tried)
        );
        assert_eq!(waited, tried);
    }
}

#[test]
fn what_the_queue_answers_to_a_read() {
    let mut buf = [0u8; 1];
    assert_eq!(
        L2capChannelReader::try_read_received(Err(TryRecvError::Empty), &mut buf),
        Err(message(ErrorKind::NotReady, "no received packet in queue"))
    );
    assert_eq!(
        L2capChannelReader::try_read_received(Err(TryRecvError::Closed), &mut buf),
        Err(message(ErrorKind::ConnectionFailed, "channel is closed"))
    );
}

#[test]
fn try_write_fills_the_queue() {
    let (mut writer, _, mut write_loop) = L2capChannelWriter::new(CHANNEL);
    for i in 0..16u8 {
        assert_eq!(writer.try_write(&[i, 100]), Ok(()));
    }
    assert_eq!(
        writer.try_write(&[16, 100]),
        Err(message(ErrorKind::NotReady, "No buffer space for write"))
    );
    assert_eq!(
        write_loop.step(WriteEvent::Started),
        WriteAction::Write(vec![0, 100])
    );
    assert_eq!(writer.try_write(&[17, 100]), Ok(()));
}

#[test]
fn try_write_after_the_loop_is_gone() {
    let (mut writer, _, write_loop) = L2capChannelWriter::new(CHANNEL);
    drop(write_loop);
    assert_eq!(
        writer.try_write(&[1]),
        Err(message(ErrorKind::ConnectionFailed, "channel is closed"))
    );
}

#[test]
fn write_waits_on_the_queue() {
    let (mut writer, _, mut write_loop) = L2capChannelWriter::new(CHANNEL);
    let sent = futures_lite::future::block_on(writer.send(&[3, 1, 4]));
    assert_eq!(writer.write(sent), Ok(()));
    assert_eq!(
        write_loop.step(WriteEvent::Started),
        WriteAction::Write(vec![3, 1, 4])
    );
    drop(write_loop);
    let sent = futures_lite::future::block_on(writer.send(&[1, 5]));
    assert_eq!(sent, Err(SendError(vec![1, 5])));
    assert_eq!(
        writer.write(sent),
        Err(message(ErrorKind::ConnectionFailed, "channel is closed"))
    );
}

#[test]
fn a_write_that_is_not_awaited_writes_nothing() {
    let (mut writer, _, mut write_loop) = L2capChannelWriter::new(CHANNEL);
    drop(writer.send(&[1]));
    assert_eq!(writer.try_write(&[2]), Ok(()));
    assert_eq!(
        write_loop.step(WriteEvent::Started),
        WriteAction::Write(vec![2])
    );
}

#[test]
fn a_read_that_is_not_awaited_takes_nothing() {
    let (mut reader, _, mut read_loop) = L2capChannelReader::new(CHANNEL);
    assert_eq!(feed(&mut read_loop, &[1]), ReadAction::AskStatus);
    drop(reader.receive());
    let mut buf = [0u8; 1];
    assert_eq!(reader.try_read(&mut buf), Ok(1));
    assert_eq!(buf, [1]);
}

#[test]
fn what_the_queue_answers_to_a_write() {
    assert_eq!(L2capChannelWriter::try_write_sent(Ok(())), Ok(()));
    assert_eq!(
        L2capChannelWriter::try_write_sent(Err(TrySendError::Full(vec![1]))),
        Err(message(ErrorKind::NotReady, "No buffer space for write"))
    );
    assert_eq!(
        L2capChannelWriter::try_write_sent(Err(TrySendError::Closed(vec![1]))),
        Err(message(ErrorKind::ConnectionFailed, "channel is closed"))
    );
}

#[test]
fn read_loop_ends_on_a_stream_that_is_not_open_or_closed() {
    for status in [0usize, 6] {
        let (_reader, _, mut read_loop) = L2capChannelReader::new(CHANNEL);
        assert_eq!(
            read_loop.step(ReadEvent::Status(NSStreamStatus(status))),
            ReadAction::End
        );
    }
}

#[test]
fn read_loop_sleeps_unless_the_stream_is_open_and_has_bytes() {
    let cases = [
        (1usize, true),
        (1, false),
        (2, false),
        (3, true),
        (4, true),
        (5, true),
        (5, false),
        (7, true),
    ];
    let (_reader, _, mut read_loop) = L2capChannelReader::new(CHANNEL);
    for (number, available) in cases {
        let status = NSStreamStatus(number);
        assert_eq!(
            read_loop.step(ReadEvent::Status(status)),
            ReadAction::AskAvailable { status }
        );
        assert_eq!(
            read_loop.step(ReadEvent::Available(available)),
            ReadAction::Sleep { millis: 10 }
        );
        assert_eq!(read_loop.step(ReadEvent::Slept), ReadAction::AskStatus);
    }
}

#[test]
fn read_loop_ends_on_a_failed_read() {
    let (mut reader, _, mut read_loop) = L2capChannelReader::new(CHANNEL);
    to_read(&mut read_loop);
    let action = read_loop.step(ReadEvent::Read {
        count: -1,
        buf: &[1, 2, 3],
    });
    assert_eq!(action, ReadAction::End);
    let mut buf = [0u8; 3];
    assert_eq!(
        reader.try_read(&mut buf),
        Err(message(ErrorKind::NotReady, "no received packet in queue"))
    );
}

#[test]
fn read_loop_ends_when_the_reader_is_gone() {
    let (reader, _, mut read_loop) = L2capChannelReader::new(CHANNEL);
    drop(reader);
    assert_eq!(feed(&mut read_loop, &[1]), ReadAction::End);
}

#[test]
fn read_loop_decides_by_what_the_queue_did() {
    let read = ReadAction::Read { max: READ_SIZE };
    let event = ReadEvent::Read {
        count: 0,
        buf: &[],
    };
    assert_eq!(ReadLoop::decide(read, event, true), ReadAction::AskStatus);
    assert_eq!(ReadLoop::decide(read, event, false), ReadAction::End);
    let failed = ReadEvent::Read {
        count: -5,
        buf: &[],
    };
    assert_eq!(ReadLoop::decide(read, failed, true), ReadAction::End);
}

#[test]
fn write_loop_writes_packets_in_order() {
    let (mut writer, _, mut write_loop) = L2capChannelWriter::new(CHANNEL);
    assert_eq!(writer.try_write(&[1]), Ok(()));
    assert_eq!(writer.try_write(&[]), Ok(()));
    assert_eq!(writer.try_write(&[2, 3]), Ok(()));
    drop(writer);
    assert_eq!(
        write_loop.step(WriteEvent::Started),
        WriteAction::Write(vec![1])
    );
    assert_eq!(
        write_loop.step(WriteEvent::Written { count: 1 }),
        WriteAction::Write(vec![])
    );
    // That nothing was written is no failure.
    assert_eq!(
        write_loop.step(WriteEvent::Written { count: 0 }),
        WriteAction::Write(vec![2, 3])
    );
    // Nor is that only a part was.
    assert_eq!(
        write_loop.step(WriteEvent::Written { count: 1 }),
        WriteAction::End
    );
}

#[test]
fn write_loop_ends_on_a_failed_write() {
    let (mut writer, _, mut write_loop) = L2capChannelWriter::new(CHANNEL);
    assert_eq!(writer.try_write(&[1]), Ok(()));
    assert_eq!(writer.try_write(&[2]), Ok(()));
    assert_eq!(
        write_loop.step(WriteEvent::Started),
        WriteAction::Write(vec![1])
    );
    assert_eq!(
        write_loop.step(WriteEvent::Written { count: -1 }),
        WriteAction::End
    );
}

#[test]
fn what_was_received_before_a_close_is_not_lost() {
    let (mut reader, _, mut read_loop) = L2capChannelReader::new(CHANNEL);
    for i in 0..5u8 {
        assert_eq!(feed(&mut read_loop, &[i; 3]), ReadAction::AskStatus);
    }
    assert_eq!(
        read_loop.step(ReadEvent::Status(NSStreamStatus(6))),
        ReadAction::End
    );
    drop(read_loop);
    let mut buf = vec![0u8; READ_SIZE];
    for i in 0..5u8 {
        assert_eq!(reader.try_read(&mut buf), Ok(3));
        assert_eq!(buf[..3], [i; 3]);
    }
    // From then on the channel is closed.
    for _ in 0..3 {
        assert_eq!(
            reader.try_read(&mut buf),
            Err(message(ErrorKind::ConnectionFailed, "channel is closed"))
        );
    }
}

#[test]
fn what_was_written_before_the_writer_went_is_not_lost() {
    let (mut writer, _, mut write_loop) = L2capChannelWriter::new(CHANNEL);
    for i in 0..16u8 {
        assert_eq!(writer.try_write(&[i]), Ok(()));
    }
    drop(writer);
    let mut event = WriteEvent::Started;
    for i in 0..16u8 {
        assert_eq!(write_loop.step(event), WriteAction::Write(vec![i]));
        event = WriteEvent::Written { count: 1 };
    }
    assert_eq!(write_loop.step(event), WriteAction::End);
}

#[test]
fn a_closed_queue_stays_closed_even_when_full() {
    let (mut writer, _, write_loop) = L2capChannelWriter::new(CHANNEL);
    for i in 0..16u8 {
        assert_eq!(writer.try_write(&[i]), Ok(()));
    }
    drop(write_loop);
    for _ in 0..3 {
        assert_eq!(
            writer.try_write(&[1]),
            Err(message(ErrorKind::ConnectionFailed, "channel is closed"))
        );
    }
    let sent = futures_lite::future::block_on(writer.send(&[2]));
    assert_eq!(
        writer.write(sent),
        Err(message(ErrorKind::ConnectionFailed, "channel is closed"))
    );
}

#[test]
fn the_longest_read_fits_a_buffer_of_its_size() {
    let (mut reader, _, mut read_loop) = L2capChannelReader::new(CHANNEL);
    let bytes = vec![7u8; READ_SIZE];
    assert_eq!(feed(&mut read_loop, &bytes), ReadAction::AskStatus);
    let mut buf = vec![0u8; READ_SIZE];
    assert_eq!(reader.try_read(&mut buf), Ok(READ_SIZE));
    assert_eq!(buf, bytes);
}

#[test]
fn write_loop_decides_by_what_the_queue_gave() {
    assert_eq!(
        WriteLoop::decide(Ok(vec![1, 2])),
        WriteAction::Write(vec![1, 2])
    );
    assert_eq!(WriteLoop::decide(Err(RecvError)), WriteAction::End);
}
