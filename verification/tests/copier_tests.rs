use cpx::copier::DEFAULT_CHUNK_SIZE;
use cpx::copier::copy_chunked;
use cpx::engine::CopyAction;
use cpx::engine::DestKind;
use cpx::engine::DestSpec;
use cpx::engine::SourceKind;
use cpx::engine::SourceSpec;
use cpx::engine::plan_copy;
use cpx::progress::Phase;
use cpx::progress::ProgressState;

fn pattern(n: usize) -> Vec<u8> {
    let mut data = Vec::with_capacity(n);
    for i in 0..n {
        data.push((i % 251) as u8);
    }
    data
}

fn round_trip(n: usize, chunk_size: usize) {
    let data = pattern(n);
    let mut reporter = ProgressState::new();
    let out = copy_chunked(&data, chunk_size, &mut reporter);
    assert_eq!(out, data);
    assert_eq!(out.len(), n);
    assert_eq!(reporter.phase, Phase::Finished);
    assert_eq!(reporter.total, n as u64);
    assert_eq!(reporter.last, n as u64);
    assert_eq!(reporter.delta_sum, n as u64);
}

#[test]
fn round_trip_empty() {
    round_trip(0, 7);
    round_trip(0, DEFAULT_CHUNK_SIZE);
}

#[test]
fn round_trip_single_byte() {
    round_trip(1, 7);
    round_trip(1, DEFAULT_CHUNK_SIZE);
}

#[test]
fn round_trip_one_under_a_chunk() {
    round_trip(6, 7);
    round_trip(DEFAULT_CHUNK_SIZE - 1, DEFAULT_CHUNK_SIZE);
}

#[test]
fn round_trip_exactly_one_chunk() {
    round_trip(7, 7);
    round_trip(DEFAULT_CHUNK_SIZE, DEFAULT_CHUNK_SIZE);
}

#[test]
fn round_trip_one_over_a_chunk() {
    round_trip(8, 7);
    round_trip(DEFAULT_CHUNK_SIZE + 1, DEFAULT_CHUNK_SIZE);
}

#[test]
fn round_trip_many_chunks() {
    round_trip(3 * 7 + 5, 7);
    round_trip(3 * DEFAULT_CHUNK_SIZE + 17, DEFAULT_CHUNK_SIZE);
}

#[test]
fn copying_twice_leaves_identical_content() {
    let data = pattern(1000);
    let mut first_reporter = ProgressState::new();
    let first = copy_chunked(&data, 64, &mut first_reporter);
    let mut second_reporter = ProgressState::new();
    let second = copy_chunked(&data, 64, &mut second_reporter);
    assert_eq!(first, second);
    assert_eq!(second, data);
    assert_eq!(second.len(), data.len());
}

#[test]
fn default_chunk_size_matches_the_copy_loop() {
    assert_eq!(DEFAULT_CHUNK_SIZE, 40960);
}

#[test]
fn planned_target_receives_the_source_bytes() {
    let sources = vec![SourceSpec { path: "a.txt".to_string(), kind: SourceKind::File }];
    let d = DestSpec { path: "outdir/".to_string(), kind: DestKind::Directory };
    let actions = plan_copy(&sources, &d).unwrap();
    match &actions[..] {
        [CopyAction::CopyFile { source, target }] => {
            assert_eq!(source, "a.txt");
            assert_eq!(target, "outdir/a.txt");
        }
        other => panic!("unexpected plan: {:?}", other),
    }

    let data = pattern(10);
    let mut reporter = ProgressState::new();
    let out = copy_chunked(&data, DEFAULT_CHUNK_SIZE, &mut reporter);
    assert_eq!(out, data);
    assert_eq!(out.len(), 10);
}
