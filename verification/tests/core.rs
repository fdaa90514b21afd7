use needsim::pos::dist;
use needsim::stat::{stat_dec, stat_satisfy};
use needsim::advert::{offer, Advert, Need};

#[test]
fn dist_basics() {
    assert_eq!(dist((0, 0), (0, 0)), 0);
    assert_eq!(dist((-5, 5), (15, 15)), 30);
    assert_eq!(dist((15, 15), (-5, 5)), 30);
    assert_eq!(dist((3, -4), (3, -4)), 0);
    assert_eq!(dist((1, 2), (4, 6)), 7);
}

#[test]
fn dist_saturates() {
    assert_eq!(dist((-128, -128), (127, 127)), 255);
    assert_eq!(dist((-128, 0), (127, 0)), 255);
    assert_eq!(dist((-128, 0), (127, 1)), 255);
}

#[test]
fn stat_dec_steps() {
    assert_eq!(stat_dec(8), 7);
    assert_eq!(stat_dec(0), -1);
    assert_eq!(stat_dec(-10), -11);
    assert_eq!(stat_dec(-128), -128);
}

#[test]
fn stat_satisfy_floors_at_ten() {
    assert_eq!(stat_satisfy(8, 5), 13);
    assert_eq!(stat_satisfy(3, 5), 10);
    assert_eq!(stat_satisfy(-4, 10), 10);
    assert_eq!(stat_satisfy(-128, 5), 10);
    assert_eq!(stat_satisfy(120, 10), 127);
}

#[test]
fn offer_reads_the_right_field() {
    let ad = Advert { food: 5, sleep: -2 };
    assert_eq!(offer(ad, Need::Food), 5);
    assert_eq!(offer(ad, Need::Sleep), -2);
}
