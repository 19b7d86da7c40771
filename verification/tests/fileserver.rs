use league_record::fileserver::{
    chunk_step, content_range, is_local_request, parse_range, plan_body, route, route_decoded, ChunkStep,
    ContentType, MakeFileService, Status, BUFFER_SIZE,
};
use std::path::PathBuf;

fn host(h: &str) -> Option<String> {
    Some(h.to_string())
}

#[test]
fn only_local_host_is_served() {
    assert!(is_local_request(&host("127.0.0.1:49152")));
    assert!(is_local_request(&host("127.0.0.1:")));
    assert!(!is_local_request(&host("localhost:49152")));
    assert!(!is_local_request(&host("127.0.0.1")));
    assert!(!is_local_request(&host("127.0.0.10:80")));
    assert!(!is_local_request(&None));
    assert!(matches!(route(&host("192.168.0.2:80"), "/a.mp4"), Err(Status::Forbidden)));
}

#[test]
fn videos_and_metadata_are_served_with_their_content_type() {
    let r = route(&host("127.0.0.1:1234"), "/game.mp4").ok().unwrap();
    assert_eq!(r.file, "game.mp4");
    assert_eq!(r.content_type, ContentType::VideoMp4);
    assert_eq!(r.content_type.header_value(), "video/mp4");
    let r = route(&host("127.0.0.1:1234"), "/game.json").ok().unwrap();
    assert_eq!(r.content_type, ContentType::ApplicationJson);
    assert_eq!(r.content_type.header_value(), "application/json");
    assert!(matches!(route(&host("127.0.0.1:1234"), "/notes.txt"), Err(Status::Forbidden)));
}

#[test]
fn request_paths_are_percent_decoded() {
    let r = route(&host("127.0.0.1:1234"), "/my%20game%2Emp4").ok().unwrap();
    assert_eq!(r.file, "my game.mp4");
    assert!(matches!(route(&host("127.0.0.1:1234"), "/%FF.mp4"), Err(Status::BadRequest)));
    assert!(matches!(route_decoded(None), Err(Status::BadRequest)));
    assert_eq!(route_decoded(Some("x.json".to_string())).ok().unwrap().content_type, ContentType::ApplicationJson);
}

#[test]
fn range_header_is_read_leniently() {
    assert_eq!(parse_range(&None, 1000), (0, 1000));
    assert_eq!(parse_range(&Some("bytes=100-199".to_string()), 1000), (100, 199));
    assert_eq!(parse_range(&Some("bytes=100-".to_string()), 1000), (100, 1000));
    assert_eq!(parse_range(&Some("bytes=-500".to_string()), 1000), (0, 500));
    assert_eq!(parse_range(&Some("bytes=abc-5".to_string()), 1000), (0, 5));
    assert_eq!(parse_range(&Some("bytes=+7-+9".to_string()), 1000), (7, 9));
    assert_eq!(parse_range(&Some("bytes 5-6".to_string()), 1000), (0, 1000));
    assert_eq!(parse_range(&Some("bytes=56".to_string()), 1000), (0, 1000));
    assert_eq!(parse_range(&Some("bytes=1-2-3".to_string()), 1000), (1, 1000));
    assert_eq!(parse_range(&Some("bytes=99999999999999999999-1".to_string()), 1000), (0, 1));
}

#[test]
fn content_range_names_first_and_last_byte() {
    assert_eq!(content_range(0, 99, 1000), "bytes 0-99/1000");
    assert_eq!(content_range(500, 999, 1000), "bytes 500-999/1000");
}

#[test]
fn whole_file_is_plain_and_part_is_partial_content() {
    let whole = plan_body(0, 1000, 1000);
    assert_eq!(whole.status, Status::Success);
    assert_eq!(whole.status.code(), 200);
    assert_eq!(whole.content_length, 1000);
    assert_eq!(whole.content_range, None);
    assert_eq!(whole.buf_size, 1000);

    let part = plan_body(100, 20000, 1_000_000);
    assert_eq!(part.status, Status::PartialContent);
    assert_eq!(part.status.code(), 206);
    assert_eq!(part.content_length, 19900);
    assert_eq!(part.content_range, Some("bytes 100-19999/1000000".to_string()));
    assert_eq!(part.buf_size, BUFFER_SIZE);
}

#[test]
fn status_codes() {
    assert_eq!(Status::BadRequest.code(), 400);
    assert_eq!(Status::Forbidden.code(), 403);
    assert_eq!(Status::NotFound.code(), 404);
    assert_eq!(Status::InternalServerError.code(), 500);
}

#[test]
fn body_chunks_never_exceed_the_length() {
    assert_eq!(chunk_step(100, 0), ChunkStep::Finished);
    assert_eq!(chunk_step(100, 40), ChunkStep::Send { take: 40, remaining: 60 });
    assert_eq!(chunk_step(100, 100), ChunkStep::Send { take: 100, remaining: 0 });
    assert_eq!(chunk_step(100, 8192), ChunkStep::Send { take: 100, remaining: 0 });
    let mut remaining = 10_000u64;
    let mut sent = 0u64;
    while remaining > 0 {
        match chunk_step(remaining, 8192) {
            ChunkStep::Send { take, remaining: rest } => {
                sent += take;
                remaining = rest;
            }
            ChunkStep::Finished => break,
        }
    }
    assert_eq!(sent, 10_000);
}

#[test]
fn file_service_keeps_its_folder() {
    let s = MakeFileService::new(PathBuf::from("/videos"));
    assert_eq!(s.0, PathBuf::from("/videos"));
}
