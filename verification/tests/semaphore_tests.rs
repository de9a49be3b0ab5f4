use vulkust::semaphore::{acquire_count, can_acquire, must_wait, release_count, Semaphore};

#[test]
fn count_rules() {
    assert!(can_acquire(1));
    assert!(!can_acquire(0));
    assert!(!can_acquire(-3));
    assert_eq!(acquire_count(5), 4);
    assert_eq!(release_count(4), 5);
    assert_eq!(release_count(-1), 0);
    assert_eq!(release_count(isize::MAX), isize::MAX);
    let mut c = 0isize;
    assert!(must_wait(&mut c));
    let mut c = 2isize;
    assert!(!must_wait(&mut c));
    assert_eq!(c, 2);
}

#[test]
fn acquire_undoes_release() {
    for c in [0isize, 1, 7, -4] {
        assert_eq!(acquire_count(release_count(c)), c);
    }
}

#[test]
fn semaphore_counts_down_and_up() {
    let s = Semaphore::new(2);
    s.acquire();
    s.acquire();
    s.release();
    s.acquire();
    s.release();
    s.release();
    s.acquire();
    s.acquire();
}

#[test]
fn release_lets_a_zero_semaphore_be_acquired() {
    let s = Semaphore::new(0);
    s.release();
    s.acquire();
}
