use coroutines::moving_average_coroutine;
use coroutines::outlier_detector_coroutine;
use coroutines::run_pipeline;
use coroutines::Average;
use coroutines::CoroutineState;
use coroutines::Ratio;

#[test]
fn fibonacci_demo() {
    let mut coro_fib = coroutines::fibonacci_coroutine(5);
    let mut coro_result = Vec::new();

    loop {
        match coro_fib.resume() {
            CoroutineState::Yielded(value) => coro_result.push(value),
            CoroutineState::Completed(msg) => {
                println!("  {:?}", coro_result);
                println!("  Completion message: {}", msg);
                assert_eq!(msg, "Fibonacci sequence complete");
                break;
            }
        }
    }

    assert_eq!(coro_result, vec![0, 1, 1, 2, 3]);
}

#[test]
fn fibonacci_zero_count_completes_at_once() {
    let mut fib = coroutines::fibonacci_coroutine(0);
    match fib.resume() {
        CoroutineState::Yielded(_) => panic!("nothing should be yielded"),
        CoroutineState::Completed(msg) => assert_eq!(msg, "Fibonacci sequence complete"),
    }
}

#[test]
fn test_outlier_detector() {
    let data = vec![1, 2, 3, 4, 10, 5, 6, 20, 7, 8];
    let window_size = 3;
    let outlier_threshold = Ratio::new(5, 1);

    let mut mov_avg = moving_average_coroutine(window_size);
    let mut outlier_detector = outlier_detector_coroutine(outlier_threshold);

    let mut averages = Vec::new();
    let mut outliers = Vec::new();
    for &value in &data {
        let avg = match mov_avg.resume(value) {
            CoroutineState::Yielded(a) => a,
            CoroutineState::Completed(_) => break,
        };

        let outlier = match outlier_detector.resume((value, avg)) {
            CoroutineState::Yielded(o) => o,
            CoroutineState::Completed(_) => break,
        };

        println!(
            "Value: {:5.1}, Moving Avg: {:5.2}, is outlier: {:?}",
            value as f64,
            avg.sum as f64 / avg.len as f64,
            outlier
        );
        averages.push((avg.sum, avg.len));
        outliers.push(outlier);
    }

    // The exact rationals behind 1.00, 1.50, 2.00, 3.00, 5.67, 6.33, 7.00,
    // 10.33, 11.00, 11.67.
    assert_eq!(
        averages,
        vec![
            (1, 1),
            (3, 2),
            (6, 3),
            (9, 3),
            (17, 3),
            (19, 3),
            (21, 3),
            (31, 3),
            (33, 3),
            (35, 3),
        ]
    );
    assert_eq!(
        outliers,
        vec![None, None, None, None, None, None, None, Some(20), None, None]
    );
}

#[test]
fn pipeline_driver_matches_stagewise_run() {
    let samples = vec![1, 2, 3, 4, 10, 5, 6, 20, 7, 8];
    let out = run_pipeline(&samples, 3, Ratio::new(5, 1));
    assert_eq!(out.len(), samples.len());
    for (k, step) in out.iter().enumerate() {
        assert_eq!(step.value, samples[k]);
    }
    assert_eq!(out[7].outlier, Some(20));
    assert_eq!(out[4].average, Average { sum: 17, len: 3 });
    assert_eq!(
        out.iter().filter(|step| step.outlier.is_some()).count(),
        1
    );
}

#[test]
fn moving_average_with_window_one_tracks_the_sample() {
    let mut mov_avg = moving_average_coroutine(1);
    for &value in &[7, -3, 100] {
        match mov_avg.resume(value) {
            CoroutineState::Yielded(avg) => {
                assert_eq!(avg, Average { sum: value as i128, len: 1 });
            }
            CoroutineState::Completed(_) => panic!("the averaging stage never completes"),
        }
    }
}

#[test]
fn deviation_equal_to_threshold_is_not_an_outlier() {
    // |10 - 5| == 5 is not beyond 5, but it is beyond 4.9.
    let mut at_threshold = outlier_detector_coroutine(Ratio::new(5, 1));
    match at_threshold.resume((10, Average { sum: 5, len: 1 })) {
        CoroutineState::Yielded(o) => assert_eq!(o, None),
        CoroutineState::Completed(_) => panic!("the detector never completes"),
    }

    let mut just_below = outlier_detector_coroutine(Ratio::new(49, 10));
    match just_below.resume((10, Average { sum: 5, len: 1 })) {
        CoroutineState::Yielded(o) => assert_eq!(o, Some(10)),
        CoroutineState::Completed(_) => panic!("the detector never completes"),
    }
}
