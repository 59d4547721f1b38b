use mp4_parser::atom::sample_table::{
    SampleToChunkEntry, Stco, Stsc, Stsz, Stts, TimeToSampleEntry,
};
use mp4_parser::atom::Mdhd;

fn stts(runs: &[(u32, u32)]) -> Stts {
    Stts {
        version: 0,
        flags: vec![0, 0, 0],
        number_of_entries: runs.len() as u32,
        time_to_sample_table: runs
            .iter()
            .map(|&(sample_count, sample_duration)| TimeToSampleEntry {
                sample_count,
                sample_duration,
            })
            .collect(),
    }
}

fn stsc(runs: &[(u32, u32, u32)]) -> Stsc {
    Stsc {
        version: 0,
        flags: vec![0, 0, 0],
        number_of_entries: runs.len() as u32,
        sample_to_chunk_table: runs
            .iter()
            .map(
                |&(first_chunk, samples_per_chunk, sample_description_id)| SampleToChunkEntry {
                    first_chunk,
                    samples_per_chunk,
                    sample_description_id,
                },
            )
            .collect(),
    }
}

// The sample-table composition example: 3 samples of duration 1000 and target
// time 2500 name sample 3; chunks of 2 samples put sample 3 in chunk 2; the
// chunk offset table is indexed directly.
#[test]
fn sample_table_composition_example() {
    let time_to_sample = stts(&[(3, 1000)]);
    assert_eq!(time_to_sample.lookup_time(2500), 3);

    let sample_to_chunk = stsc(&[(1, 2, 1)]);
    assert_eq!(sample_to_chunk.lookup_chunk(3), 2);

    let chunk_offsets = Stco {
        version: 0,
        flags: vec![0, 0, 0],
        number_of_entries: 3,
        chunk_offset_table: vec![0, 500, 1100],
    };
    assert_eq!(chunk_offsets.chunk_offset(2), 1100);
}

#[test]
fn lookup_time_zero_names_sample_one() {
    assert_eq!(stts(&[(3, 1000)]).lookup_time(0), 1);
    assert_eq!(stts(&[]).lookup_time(0), 1);
}

#[test]
fn lookup_time_walks_runs_in_order() {
    let t = stts(&[(2, 100), (3, 10)]);
    // cumulative durations: 100, 200, 210, 220, 230
    assert_eq!(t.lookup_time(99), 1);
    assert_eq!(t.lookup_time(100), 2);
    assert_eq!(t.lookup_time(199), 2);
    assert_eq!(t.lookup_time(205), 3);
    assert_eq!(t.lookup_time(215), 4);
    assert_eq!(t.lookup_time(229), 5);
}

#[test]
fn lookup_time_past_total_duration_names_final_sample() {
    let t = stts(&[(3, 1000)]);
    assert_eq!(t.lookup_time(3000), 3);
    assert_eq!(t.lookup_time(u32::MAX), 3);
    assert_eq!(stts(&[]).lookup_time(5), 0);
}

#[test]
fn lookup_chunk_zero_names_chunk_zero() {
    assert_eq!(stsc(&[(1, 2, 1)]).lookup_chunk(0), 0);
}

#[test]
fn lookup_chunk_walks_runs() {
    // chunks 1..3 hold 4 samples each, chunks 4.. hold 1 sample each:
    // samples 1-4 in chunk 1, 5-8 in chunk 2, 9-12 in chunk 3, 13 in chunk 4,
    // 14 in chunk 5.
    let t = stsc(&[(1, 4, 1), (4, 1, 1)]);
    assert_eq!(t.lookup_chunk(1), 1);
    assert_eq!(t.lookup_chunk(4), 1);
    assert_eq!(t.lookup_chunk(5), 2);
    assert_eq!(t.lookup_chunk(12), 3);
    assert_eq!(t.lookup_chunk(13), 4);
    assert_eq!(t.lookup_chunk(14), 5);
}

// A sample-size table with per-sample entries answers by 1-based sample
// index; a fixed size answers every index.
#[test]
fn fixed_and_variable_sample_sizes() {
    let variable = Stsz {
        version: 0,
        flags: vec![0, 0, 0],
        sample_size: 0,
        number_of_entries: 3,
        sample_size_table: vec![10, 20, 30],
    };
    assert_eq!(variable.sample_size(2), 20);
    assert_eq!(variable.sample_size(1), 10);
    assert_eq!(variable.sample_size(3), 30);

    let fixed = Stsz {
        version: 0,
        flags: vec![0, 0, 0],
        sample_size: 64,
        number_of_entries: 0,
        sample_size_table: vec![],
    };
    assert_eq!(fixed.sample_size(1), 64);
    assert_eq!(fixed.sample_size(2), 64);
    assert_eq!(fixed.sample_size(1_000_000), 64);
}

#[test]
fn chunk_offset_is_a_direct_index() {
    let t = Stco {
        version: 0,
        flags: vec![0, 0, 0],
        number_of_entries: 3,
        chunk_offset_table: vec![7, 500, 1100],
    };
    assert_eq!(t.chunk_offset(0), 7);
    assert_eq!(t.chunk_offset(1), 500);
}

#[test]
fn media_time_conversion_scales_seconds() {
    let m = Mdhd {
        version: 0,
        flags: vec![0, 0, 0],
        creation_time: 0,
        modification_time: 0,
        time_scale: 600,
        duration: 0,
        language: 0,
        quality: 0,
    };
    assert_eq!(m.convert_to_media_time(2), 1200);
    assert_eq!(m.convert_to_media_time(0), 0);
}
