use lasercube::animation::{Animation, Frame};
use lasercube::{LaserdockSample, XY};

fn colored(r: u8, g: u8, b: u8, n: u16) -> Vec<LaserdockSample> {
    (0..n).map(|i| LaserdockSample::new_xy(r, g, b, XY(100 * i + 1), XY(200 * i + 2))).collect()
}

#[test]
fn two_frames_get_loop_tails() {
    let f0 = colored(10, 0, 0, 3);
    let f1 = colored(0, 20, 0, 2);
    let a = Animation::new(vec![Frame::new(f0.clone()), Frame::new(f1.clone())], 15);
    assert_eq!(a.frame_count(), 2);
    assert_eq!(a.delay_ms(), 15);

    let head = a.frame(0).points();
    assert_eq!(head.len(), 7);
    assert_eq!(&head[..3], &f0[..]);
    assert_eq!(head[3], f0[2]);
    assert_eq!(head[4], f0[2]);
    assert_eq!(head[5], f1[0].blanked());
    assert_eq!(head[6], f1[0].blanked());
    assert!(head[5].is_blank());
    assert_eq!(head[5].x(), f1[0].x());

    let tail = a.frame(1).points();
    assert_eq!(tail.len(), 6);
    assert_eq!(&tail[..2], &f1[..]);
    assert_eq!(tail[2], f1[1]);
    assert_eq!(tail[3], f1[1]);
    assert_eq!(tail[4], f0[0].blanked());
    assert_eq!(tail[5], f0[0].blanked());
}

#[test]
fn playback_order_cycles() {
    let a = Animation::new(vec![Frame::new(colored(10, 0, 0, 3)), Frame::new(colored(0, 20, 0, 2))], 15);
    let mut order = vec![];
    let mut i = 0;
    for _ in 0..5 {
        order.push(a.frame(i).len());
        i = a.next_frame(i);
    }
    assert_eq!(order, vec![7, 6, 7, 6, 7]);
}

#[test]
fn every_frame_grows_by_four() {
    let lens = [1u16, 5, 2, 9];
    let frames = lens.iter().map(|&n| Frame::new(colored(1, 2, 3, n))).collect();
    let a = Animation::new(frames, 0);
    for (i, &n) in lens.iter().enumerate() {
        assert_eq!(a.frame(i).len(), n as usize + 4);
    }
    // frame 3 leads back into frame 0
    let last = a.frame(3).points();
    assert_eq!(last[last.len() - 1], colored(1, 2, 3, 1)[0].blanked());
    assert_eq!(a.next_frame(3), 0);
}

#[test]
fn single_frame_is_unchanged() {
    let f = colored(5, 5, 5, 4);
    let a = Animation::new(vec![Frame::new(f.clone())], 20);
    assert_eq!(a.frame_count(), 1);
    assert_eq!(a.frame(0).points(), &f[..]);
    assert_eq!(a.next_frame(0), 0);
    assert_eq!(a.delay_ms(), 20);
}

#[test]
fn no_frames() {
    let a = Animation::new(vec![], 10);
    assert_eq!(a.frame_count(), 0);
}
