use chat_core::net::{reader_step, tick_budget, writer_step, ReadEvent};
use tokio::io::{AsyncBufReadExt, AsyncReadExt, AsyncWriteExt, BufReader};

#[test]
fn scenario_reader_sees_a_clean_close() {
    let step = reader_step(ReadEvent::Closed);
    assert_eq!(step.deliver, "Connection to the server closed.");
    assert!(step.stop);
}

#[test]
fn reader_strips_the_trailing_delimiter() {
    let step = reader_step(ReadEvent::Data(String::from("hello\n")));
    assert_eq!(step.deliver, "hello");
    assert!(!step.stop);
}

#[test]
fn reader_strips_nothing_but_the_delimiter() {
    // only the final newline goes; other trailing characters are content
    let step = reader_step(ReadEvent::Data(String::from("hi \r\n")));
    assert_eq!(step.deliver, "hi \r");
    assert!(!step.stop);
}

#[test]
fn reader_keeps_a_frame_without_a_delimiter_whole() {
    // a stream may end without a final newline; the content stays as read
    let step = reader_step(ReadEvent::Data(String::from("partial")));
    assert_eq!(step.deliver, "partial");
    assert!(!step.stop);
}

#[test]
fn round_trip_keeps_trailing_spaces() {
    let sent = "a ";
    let step = writer_step(sent);
    assert_eq!(step.frame, "a \n");
    let back = reader_step(ReadEvent::Data(step.frame));
    assert_eq!(back.deliver, sent);
}

#[test]
fn reader_reports_a_failure_once_and_stops() {
    let step = reader_step(ReadEvent::Failed(String::from("broken pipe")));
    assert_eq!(step.deliver, "Could not read from the server: broken pipe");
    assert!(step.stop);
}

#[test]
fn scenario_writer_sees_the_quit_sentinel() {
    let step = writer_step("/quit");
    assert_eq!(step.frame, "/quit\n");
    assert!(step.stop);
}

#[test]
fn writer_quit_check_ignores_case_and_blanks() {
    assert!(writer_step("/QUIT").stop);
    assert!(writer_step("  /Quit \t ").stop);
    assert!(!writer_step("quit").stop);
    assert!(!writer_step("/quitting").stop);
}

#[test]
fn writer_frames_an_ordinary_line() {
    let step = writer_step("hello there");
    assert_eq!(step.frame, "hello there\n");
    assert!(!step.stop);
}

#[test]
fn tick_budget_is_the_remaining_time_floored_at_zero() {
    assert_eq!(tick_budget(250, 100), 150);
    assert_eq!(tick_budget(250, 250), 0);
    assert_eq!(tick_budget(250, 400), 0);
    assert_eq!(tick_budget(250, 0), 250);
}

#[test]
fn line_round_trips_through_an_echo_peer() {
    let rt = tokio::runtime::Builder::new_current_thread().enable_all().build().unwrap();
    rt.block_on(async {
        let (client, server) = tokio::io::duplex(1024);
        let (client_read, mut client_write) = tokio::io::split(client);
        let (mut server_read, mut server_write) = tokio::io::split(server);

        // the writer side frames and sends the line
        let sent = "hello world";
        let step = writer_step(sent);
        client_write.write_all(step.frame.as_bytes()).await.unwrap();

        // a fake peer echoes the frame back unmodified
        let mut buf = vec![0u8; 64];
        let n = server_read.read(&mut buf).await.unwrap();
        server_write.write_all(&buf[..n]).await.unwrap();

        // the reader side pulls one frame and trims the delimiter
        let mut reader = BufReader::new(client_read);
        let mut line = String::new();
        let got = reader.read_line(&mut line).await.unwrap();
        assert!(got > 0);
        let delivered = reader_step(ReadEvent::Data(line));
        assert_eq!(delivered.deliver, sent);
        assert!(!delivered.stop);
    });
}

#[test]
fn scenario_reader_task_ends_after_one_notice() {
    let rt = tokio::runtime::Builder::new_current_thread().enable_all().build().unwrap();
    rt.block_on(async {
        let (client, server) = tokio::io::duplex(64);
        drop(server);
        let mut reader = BufReader::new(client);
        let mut delivered: Vec<String> = Vec::new();
        loop {
            let mut line = String::new();
            let step = match reader.read_line(&mut line).await {
                Ok(0) => reader_step(ReadEvent::Closed),
                Ok(_) => reader_step(ReadEvent::Data(line)),
                Err(e) => reader_step(ReadEvent::Failed(e.to_string())),
            };
            delivered.push(step.deliver);
            if step.stop {
                break;
            }
        }
        assert_eq!(delivered, vec![String::from("Connection to the server closed.")]);
    });
}
