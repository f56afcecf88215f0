use sysaudio_capture::planes::concat_planes;
use sysaudio_capture::ring::SampleRing;
use sysaudio_capture::snapshot::{poll, render, Rendering};

fn bits(xs: &[f32]) -> Vec<u32> {
    xs.iter().map(|x| x.to_bits()).collect()
}

fn floats(xs: &[u32]) -> Vec<f32> {
    xs.iter().map(|b| f32::from_bits(*b)).collect()
}

#[test]
fn write_into_empty_buffer_keeps_all() {
    let mut r = SampleRing::new(5);
    r.write(&bits(&[1.0, 0.5, -0.5]));
    assert_eq!(floats(&r.read_snapshot()), vec![1.0, 0.5, -0.5]);
    assert!(r.len() <= r.capacity());
    assert_eq!(r.len(), 3);
}

#[test]
fn overflow_evicts_oldest() {
    let mut r = SampleRing::new(4);
    for x in [1.0f32, 2.0, 3.0, 4.0, 5.0] {
        r.write(&bits(&[x]));
    }
    assert_eq!(floats(&r.read_snapshot()), vec![2.0, 3.0, 4.0, 5.0]);
}

#[test]
fn overflow_in_one_chunk_keeps_newest() {
    let mut r = SampleRing::new(3);
    r.write(&[1, 2]);
    r.write(&[3, 4, 5, 6, 7]);
    assert_eq!(r.read_snapshot(), vec![5, 6, 7]);
    r.write(&[8]);
    assert_eq!(r.read_snapshot(), vec![6, 7, 8]);
    assert_eq!(r.sample_at(0), 6);
}

#[test]
fn many_writes_never_exceed_capacity() {
    let mut r = SampleRing::new(7);
    let mut all: Vec<u32> = Vec::new();
    for k in 0..50u32 {
        let chunk: Vec<u32> = (0..(k % 5)).map(|j| k * 10 + j).collect();
        r.write(&chunk);
        all.extend_from_slice(&chunk);
        assert!(r.len() <= 7);
        let keep = all.len().min(7);
        assert_eq!(r.read_snapshot(), all[all.len() - keep..].to_vec());
    }
}

#[test]
fn zero_capacity_keeps_nothing() {
    let mut r = SampleRing::new(0);
    r.write(&[1, 2, 3]);
    assert!(r.is_empty());
}

#[test]
fn empty_chunk_changes_nothing() {
    let mut r = SampleRing::new(4);
    r.write(&[9, 8]);
    r.write(&[]);
    assert_eq!(r.read_snapshot(), vec![9, 8]);
}

#[test]
fn clear_then_snapshot_is_zeros_of_same_length() {
    let mut r = SampleRing::new(4);
    r.write(&bits(&[0.25, -0.75, 0.5, 1.0, -1.0]));
    r.clear();
    assert_eq!(floats(&r.read_snapshot()), vec![0.0, 0.0, 0.0, 0.0]);
    assert_eq!(r.capacity(), 4);
    r.write(&bits(&[0.5]));
    assert_eq!(floats(&r.read_snapshot()), vec![0.0, 0.0, 0.0, 0.5]);
}

#[test]
fn poll_empty_buffer_gives_64_zeros() {
    let r = SampleRing::new(16);
    let out = poll(&r, 64, Rendering::Signed);
    assert_eq!(out.len(), 64);
    assert!(floats(&out).iter().all(|x| *x == 0.0));
}

#[test]
fn poll_shorter_buffer_is_silence_of_requested_length() {
    let mut r = SampleRing::new(16);
    r.write(&bits(&[0.5, -0.5, 0.25]));
    assert_eq!(poll(&r, 4, Rendering::Magnitude), vec![0, 0, 0, 0]);
}

#[test]
fn poll_picks_first_sample_of_each_stride() {
    let mut r = SampleRing::new(16);
    r.write(&(0..10u32).collect::<Vec<u32>>());
    // stride 10 / 3 = 3: positions 0, 3, 6
    assert_eq!(poll(&r, 3, Rendering::Signed), vec![0, 3, 6]);
    assert_eq!(poll(&r, 10, Rendering::Signed), (0..10u32).collect::<Vec<u32>>());
    assert_eq!(poll(&r, 0, Rendering::Signed), Vec::<u32>::new());
}

#[test]
fn poll_magnitude_takes_absolute_values() {
    let mut r = SampleRing::new(8);
    r.write(&bits(&[-0.5, 0.25, -1.0, 0.75]));
    assert_eq!(floats(&poll(&r, 2, Rendering::Magnitude)), vec![0.5, 1.0]);
    assert_eq!(floats(&poll(&r, 2, Rendering::Signed)), vec![-0.5, -1.0]);
}

#[test]
fn render_clears_only_the_sign_bit() {
    assert_eq!(f32::from_bits(render((-0.125f32).to_bits(), Rendering::Magnitude)), 0.125);
    assert_eq!(render((-0.125f32).to_bits(), Rendering::Signed), (-0.125f32).to_bits());
    assert_eq!(render(0x8000_0000, Rendering::Magnitude), 0);
}

#[test]
fn planes_join_in_order() {
    let planes = vec![vec![1, 2], vec![], vec![3], vec![4, 5, 6]];
    assert_eq!(concat_planes(&planes), vec![1, 2, 3, 4, 5, 6]);
    assert_eq!(concat_planes(&Vec::new()), Vec::<u32>::new());
}
