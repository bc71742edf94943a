use raytracer::color::Color;
use raytracer::frame::{average_color, band_bounds, viewport_offset, ConfigError, FramePhase, RenderConfig};

#[test]
fn config_accepts_tiling_block() {
    let c = RenderConfig::new(4, 800, 600, 4, 1).unwrap();
    assert_eq!(c.canvas_width, 200);
    assert_eq!(c.canvas_height, 150);
    assert_eq!(c.worker_count, 4);
    assert_eq!(c.sample_count, 1);
    let canvas = c.blank_canvas();
    assert_eq!(canvas.width(), 200);
    assert_eq!(canvas.height(), 150);
}

#[test]
fn config_rejects_block_that_does_not_divide() {
    assert_eq!(RenderConfig::new(4, 800, 600, 7, 1), Err(ConfigError::BlockSizeMismatch));
    assert_eq!(RenderConfig::new(4, 800, 602, 4, 1), Err(ConfigError::BlockSizeMismatch));
    assert_eq!(RenderConfig::new(4, 800, 600, 0, 1), Err(ConfigError::BlockSizeMismatch));
}

#[test]
fn config_rejects_zero_workers_and_samples() {
    assert_eq!(RenderConfig::new(0, 800, 600, 4, 1), Err(ConfigError::NoWorkers));
    assert_eq!(RenderConfig::new(2, 800, 600, 4, 0), Err(ConfigError::NoSamples));
    assert_eq!(RenderConfig::new(0, 800, 600, 3, 0), Err(ConfigError::BlockSizeMismatch));
}

#[test]
fn bands_split_rows_last_takes_remainder() {
    assert_eq!(band_bounds(10, 3, 0), (0, 3));
    assert_eq!(band_bounds(10, 3, 1), (3, 6));
    assert_eq!(band_bounds(10, 3, 2), (6, 10));
}

#[test]
fn bands_tile_all_rows() {
    for height in 0..40usize {
        for workers in 1..9usize {
            let mut next = 0;
            for i in 0..workers {
                let (start, end) = band_bounds(height, workers, i);
                assert_eq!(start, next);
                assert!(start <= end);
                next = end;
            }
            assert_eq!(next, height);
        }
    }
}

#[test]
fn more_workers_than_rows() {
    assert_eq!(band_bounds(2, 4, 0), (0, 0));
    assert_eq!(band_bounds(2, 4, 3), (0, 2));
}

#[test]
fn average_of_one_sample_is_the_sample() {
    assert_eq!(average_color(&vec![0x123456]), 0x123456);
}

#[test]
fn average_rounds_down_per_channel() {
    assert_eq!(average_color(&vec![0x010203, 0x020304]), 0x010203);
    assert_eq!(average_color(&vec![0xFF0000, 0x00FF00, 0x0000FF]), 0x555555);
    let white = Color::White.value();
    assert_eq!(average_color(&vec![white, white, white, white]), white);
}

#[test]
fn viewport_offsets_from_centre() {
    assert_eq!(viewport_offset(200, 150, 0, 0), (-100, 75));
    assert_eq!(viewport_offset(200, 150, 100, 75), (0, 0));
    assert_eq!(viewport_offset(200, 150, 199, 149), (99, -74));
    assert_eq!(viewport_offset(5, 5, 4, 0), (2, 2));
}

#[test]
fn frame_phases_cycle_while_open() {
    let mut p = FramePhase::Poll;
    let mut seen = vec![];
    for _ in 0..5 {
        p = p.next(true, false);
        seen.push(p);
    }
    assert_eq!(
        seen,
        vec![
            FramePhase::UpdateCamera,
            FramePhase::ClearCanvas,
            FramePhase::ParallelTrace,
            FramePhase::Present,
            FramePhase::Poll,
        ]
    );
}

#[test]
fn quit_is_seen_only_between_frames() {
    assert_eq!(FramePhase::ClearCanvas.next(false, true), FramePhase::ParallelTrace);
    assert_eq!(FramePhase::ParallelTrace.next(false, false), FramePhase::Present);
    assert_eq!(FramePhase::Poll.next(true, true), FramePhase::Stopped);
    assert_eq!(FramePhase::Poll.next(false, false), FramePhase::Stopped);
    assert_eq!(FramePhase::Stopped.next(true, false), FramePhase::Stopped);
}
