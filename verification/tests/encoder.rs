use ranim_render::output::Action;
use ranim_render::util::Size;
use ranim_render::video::{
    EncoderConfig, EncoderState, Event, Rational, VideoEncoder, GOP_SIZE, MAX_B_FRAMES,
};
use ranim_render::args::{Args, Quality};
use ranim_render::Error;

fn frame(size: Size, rgba: [u8; 4]) -> Vec<u8> {
    let mut view = vec![0u8; size.buffer_size()];
    for y in 0..size.height as usize {
        for x in 0..size.width as usize {
            let at = y * size.bytes_per_row as usize + x * 4;
            view[at..at + 4].copy_from_slice(&rgba);
        }
    }
    view
}

fn open(width: u32, height: u32) -> VideoEncoder {
    VideoEncoder::open(Size::new(width, height), 60).unwrap()
}

#[test]
fn a_stream_opens_with_no_frame_and_zero_planes() {
    let encoder = open(4, 2);
    assert_eq!(encoder.state(), EncoderState::Created);
    assert_eq!(encoder.frame_counter(), 0);
    assert_eq!(encoder.size().width, 4);
    let (y, u, v) = encoder.planes();
    assert_eq!((y.linesize, u.linesize, v.linesize), (4, 2, 2));
    assert_eq!(y.buf, vec![0; 8]);
    assert_eq!(u.buf, vec![0; 2]);
    assert_eq!(v.buf, vec![0; 2]);
}

#[test]
fn the_codec_is_configured_for_the_stream() {
    let encoder = VideoEncoder::open(Size::new(1280, 720), 30).unwrap();
    assert_eq!(
        encoder.config(),
        EncoderConfig {
            width: 1280,
            height: 720,
            time_base: Rational { num: 1, den: 30 },
            framerate: Rational { num: 30, den: 1 },
            gop_size: 10,
            max_b_frames: 1,
        }
    );
    assert_eq!((GOP_SIZE, MAX_B_FRAMES), (10, 1));
}

#[test]
fn the_args_choose_size_and_rate() {
    let args = Args {
        preview: false,
        quality: Quality::Low,
        output_file: "out".to_string(),
        single_frame: false,
        no_output: false,
    };
    let encoder = VideoEncoder::new(&args).unwrap();
    let config = encoder.config();
    assert_eq!((config.width, config.height), (854, 480));
    assert_eq!(config.time_base, Rational { num: 1, den: 15 });
    assert_eq!(config.framerate, Rational { num: 15, den: 1 });
    assert_eq!(encoder.state(), EncoderState::Created);
}

#[test]
fn a_size_that_cannot_be_encoded_is_refused() {
    for (width, height) in [(0, 4), (4, 0), (3, 4), (4, 3), (0, 0), (5, 7)] {
        let size = Size::new(width, height);
        assert_eq!(VideoEncoder::open(size, 60).err(), Some(Error::InvalidSize));
    }
    // The size is looked at before the rate.
    assert_eq!(VideoEncoder::open(Size::new(3, 4), 0).err(), Some(Error::InvalidSize));
}

#[test]
fn a_rate_that_cannot_be_encoded_is_refused() {
    let size = Size::new(4, 4);
    assert_eq!(VideoEncoder::open(size, 0).err(), Some(Error::InvalidFrameRate));
    assert_eq!(VideoEncoder::open(size, 0x8000_0000).err(), Some(Error::InvalidFrameRate));
    assert!(VideoEncoder::open(size, 0x7fff_ffff).is_ok());
    assert!(VideoEncoder::open(size, 1).is_ok());
}

#[test]
fn one_black_frame_is_encoded_and_the_stream_concluded() {
    let size = Size::new(4, 4);
    let mut encoder = VideoEncoder::open(size, 60).unwrap();
    let view = frame(size, [0, 0, 0, 255]);

    assert_eq!(encoder.encode(&view), Ok(Action::SendFrame { pts: 0 }));
    assert_eq!(encoder.state(), EncoderState::Submitted);
    assert_eq!(encoder.frame_counter(), 0);
    {
        let (y, u, v) = encoder.planes();
        assert_eq!(y.buf, vec![16; 16]);
        assert_eq!(u.buf, vec![128; 4]);
        assert_eq!(v.buf, vec![128; 4]);
    }
    assert_eq!(encoder.write(Event::NotReady), Ok(Action::Idle));
    assert_eq!(encoder.state(), EncoderState::Encoding);
    assert_eq!(encoder.frame_counter(), 1);

    assert_eq!(encoder.conclude(), Ok(Action::SendFlush));
    assert_eq!(encoder.state(), EncoderState::Flushing);
    let time_base = Rational { num: 1, den: 60 };
    assert_eq!(encoder.write(Event::Packet), Ok(Action::WritePacket { time_base }));
    assert_eq!(encoder.state(), EncoderState::Flushing);
    assert_eq!(encoder.write(Event::Flushed), Ok(Action::WriteTrailer));
    assert_eq!(encoder.state(), EncoderState::Finalized);
    assert_eq!(encoder.frame_counter(), 1);
}

#[test]
fn frames_are_stamped_zero_one_two() {
    let size = Size::new(2, 2);
    let mut encoder = VideoEncoder::open(size, 24).unwrap();
    let view = frame(size, [1, 2, 3, 4]);
    for pts in 0..50 {
        assert_eq!(encoder.frame_counter(), pts);
        assert_eq!(encoder.encode(&view), Ok(Action::SendFrame { pts }));
        // A frame that is refused takes no timestamp.
        assert_eq!(encoder.encode(&view), Err(Error::Draining));
        assert_eq!(encoder.frame_counter(), pts);
        let time_base = Rational { num: 1, den: 24 };
        for _ in 0..pts % 3 {
            assert_eq!(encoder.write(Event::Packet), Ok(Action::WritePacket { time_base }));
            assert_eq!(encoder.state(), EncoderState::Draining);
            assert_eq!(encoder.frame_counter(), pts + 1);
        }
        let dry = if pts % 2 == 0 { Event::NotReady } else { Event::Flushed };
        assert_eq!(encoder.write(dry), Ok(Action::Idle));
    }
    assert_eq!(encoder.frame_counter(), 50);
}

#[test]
fn a_frame_replaces_the_one_before() {
    let size = Size::new(2, 2);
    let mut encoder = VideoEncoder::open(size, 60).unwrap();
    assert!(encoder.encode(&frame(size, [255, 0, 0, 255])).is_ok());
    assert_eq!(encoder.planes().0.buf, vec![81; 4]);
    assert_eq!(encoder.write(Event::NotReady), Ok(Action::Idle));
    assert!(encoder.encode(&frame(size, [0, 0, 255, 255])).is_ok());
    let (y, u, v) = encoder.planes();
    assert_eq!(y.buf, vec![40; 4]);
    assert_eq!(u.buf, vec![239]);
    assert_eq!(v.buf, vec![110]);
}

#[test]
fn the_padding_of_the_rows_is_not_converted() {
    let size = Size::new(2, 2);
    let mut view = vec![0xff_u8; size.buffer_size()];
    for y in 0..2 {
        for x in 0..2 {
            let at = y * 256 + x * 4;
            view[at..at + 4].copy_from_slice(&[0, 0, 0, 0]);
        }
    }
    let mut encoder = VideoEncoder::open(size, 60).unwrap();
    assert_eq!(encoder.encode(&view), Ok(Action::SendFrame { pts: 0 }));
    let (y, u, v) = encoder.planes();
    assert_eq!(y.buf, vec![16; 4]);
    assert_eq!(u.buf, vec![128]);
    assert_eq!(v.buf, vec![128]);
}

#[test]
fn nothing_is_taken_where_nothing_was_submitted() {
    let mut encoder = open(2, 2);
    for event in [
        Event::Rejected,
        Event::Packet,
        Event::NotReady,
        Event::Flushed,
        Event::CodecError,
        Event::IoError,
    ] {
        assert_eq!(encoder.write(event), Err(Error::NotDraining));
        assert_eq!(encoder.state(), EncoderState::Created);
    }
}

#[test]
fn a_stream_that_drains_takes_no_frame_and_no_conclusion() {
    let size = Size::new(2, 2);
    let mut encoder = VideoEncoder::open(size, 60).unwrap();
    let view = frame(size, [9, 9, 9, 9]);
    assert!(encoder.encode(&view).is_ok());
    assert_eq!(encoder.conclude(), Err(Error::Draining));
    assert_eq!(encoder.encode(&view), Err(Error::Draining));
    assert_eq!(encoder.state(), EncoderState::Submitted);
    assert_eq!(encoder.frame_counter(), 0);
    assert!(encoder.write(Event::Packet).is_ok());
    assert_eq!(encoder.conclude(), Err(Error::Draining));
    assert_eq!(encoder.encode(&view), Err(Error::Draining));
    assert_eq!(encoder.state(), EncoderState::Draining);
    assert_eq!(encoder.frame_counter(), 1);
    assert_eq!(encoder.write(Event::Flushed), Ok(Action::Idle));
    assert_eq!(encoder.conclude(), Ok(Action::SendFlush));
    assert_eq!(encoder.conclude(), Err(Error::Draining));
    assert_eq!(encoder.encode(&view), Err(Error::Draining));
}

#[test]
fn a_stream_without_frames_can_be_concluded() {
    let mut encoder = open(2, 2);
    assert_eq!(encoder.conclude(), Ok(Action::SendFlush));
    assert_eq!(encoder.write(Event::NotReady), Ok(Action::WriteTrailer));
    assert_eq!(encoder.state(), EncoderState::Finalized);
    assert_eq!(encoder.frame_counter(), 0);
}

#[test]
fn a_concluded_stream_takes_nothing() {
    let size = Size::new(2, 2);
    let mut encoder = VideoEncoder::open(size, 60).unwrap();
    assert_eq!(encoder.conclude(), Ok(Action::SendFlush));
    assert_eq!(encoder.write(Event::Flushed), Ok(Action::WriteTrailer));
    let before = encoder.planes().0.buf.clone();
    assert_eq!(encoder.encode(&frame(size, [255; 4])), Err(Error::Finalized));
    assert_eq!(encoder.conclude(), Err(Error::Finalized));
    assert_eq!(encoder.write(Event::Packet), Err(Error::Finalized));
    assert_eq!(encoder.write(Event::IoError), Err(Error::Finalized));
    assert_eq!(encoder.state(), EncoderState::Finalized);
    assert_eq!(encoder.planes().0.buf, before);
}

#[test]
fn a_failure_of_the_codec_aborts() {
    let size = Size::new(2, 2);
    let mut encoder = VideoEncoder::open(size, 60).unwrap();
    assert!(encoder.encode(&frame(size, [0; 4])).is_ok());
    assert_eq!(encoder.write(Event::CodecError), Err(Error::Codec));
    assert_eq!(encoder.state(), EncoderState::Aborted);
    assert_eq!(encoder.encode(&frame(size, [0; 4])), Err(Error::Aborted));
    assert_eq!(encoder.write(Event::Packet), Err(Error::Aborted));
    assert_eq!(encoder.conclude(), Err(Error::Aborted));
    assert_eq!(encoder.frame_counter(), 1);
}

#[test]
fn a_frame_that_the_codec_rejects_is_not_counted() {
    let size = Size::new(2, 2);
    let mut encoder = VideoEncoder::open(size, 60).unwrap();
    let view = frame(size, [0; 4]);
    for pts in 0..3 {
        assert_eq!(encoder.encode(&view), Ok(Action::SendFrame { pts }));
        assert_eq!(encoder.write(Event::NotReady), Ok(Action::Idle));
    }
    assert_eq!(encoder.frame_counter(), 3);
    assert_eq!(encoder.encode(&view), Ok(Action::SendFrame { pts: 3 }));
    assert_eq!(encoder.write(Event::Rejected), Err(Error::Codec));
    assert_eq!(encoder.frame_counter(), 3);
    assert_eq!(encoder.state(), EncoderState::Aborted);
    assert_eq!(encoder.encode(&view), Err(Error::Aborted));
    assert_eq!(encoder.frame_counter(), 3);
}

#[test]
fn a_rejected_end_of_stream_aborts() {
    let mut encoder = open(2, 2);
    assert_eq!(encoder.conclude(), Ok(Action::SendFlush));
    assert_eq!(encoder.write(Event::Rejected), Err(Error::Codec));
    assert_eq!(encoder.state(), EncoderState::Aborted);
    assert_eq!(encoder.frame_counter(), 0);
}

#[test]
fn a_failure_of_the_muxer_aborts() {
    let size = Size::new(2, 2);
    let mut encoder = VideoEncoder::open(size, 60).unwrap();
    assert!(encoder.encode(&frame(size, [0; 4])).is_ok());
    assert!(encoder.write(Event::Packet).is_ok());
    assert_eq!(encoder.write(Event::IoError), Err(Error::Io));
    assert_eq!(encoder.state(), EncoderState::Aborted);

    let mut encoder = VideoEncoder::open(size, 60).unwrap();
    assert_eq!(encoder.conclude(), Ok(Action::SendFlush));
    assert_eq!(encoder.write(Event::CodecError), Err(Error::Codec));
    assert_eq!(encoder.state(), EncoderState::Aborted);
}

#[test]
fn every_error_has_its_words() {
    assert_eq!(Error::NoAdapterFound.message(), "No adapter found.");
    assert_eq!(Error::ResizeUnsupported.message(), "Resizing is not supported in output mode");
    let all = [
        Error::NoAdapterFound,
        Error::RequestDeviceError,
        Error::InvalidSize,
        Error::InvalidFrameRate,
        Error::ResizeUnsupported,
        Error::Draining,
        Error::NotDraining,
        Error::Finalized,
        Error::Aborted,
        Error::Codec,
        Error::Io,
        Error::FrameLimit,
        Error::OutOfOrder,
    ];
    for (i, a) in all.iter().enumerate() {
        for b in &all[i + 1..] {
            assert_ne!(a.message(), b.message());
        }
    }
}
