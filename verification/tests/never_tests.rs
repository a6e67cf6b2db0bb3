use coroutines::guaranteed_fetch;
use coroutines::listener_with_errors;
use coroutines::retry_decision;
use coroutines::sign_document;
use coroutines::HsmBackend;
use coroutines::InMemoryKeys;
use coroutines::RetryStep;

#[test]
fn test_signing() {
    let in_memory = InMemoryKeys::new([0; 32]);

    // this can not fail
    match sign_document(&in_memory, b"hello") {
        Ok(sig) => {
            println!("In memory signature: {:?}", sig);
            assert_eq!(sig, vec![0x42, 0x24]);
        }
        Err(_) => unreachable!(),
    }

    let hsm = HsmBackend::new("HSM-001".to_string());

    // this can fail
    match sign_document(&hsm, b"hello") {
        Ok(sig) => {
            println!("HSM signature: {:?}", sig);
            assert_eq!(sig, vec![0x12, 0x34]);
        }
        Err(e) => println!("HSM error: {:?}", e),
    }
}

#[test]
fn fetch_that_cannot_fail() {
    match guaranteed_fetch("http://example.com") {
        Ok(data) => {
            println!("Got data: {}", data);
            assert_eq!(data, "data");
        }
        Err(_) => unreachable!(),
    }
}

#[test]
fn listener_that_cannot_succeed() {
    match listener_with_errors() {
        Ok(_) => unreachable!(),
        Err(e) => {
            println!("Listener failed: {}", e);
            assert_eq!(e, "too many iterations");
        }
    }
}

#[test]
fn retry_decision_table() {
    assert_eq!(retry_decision(0, 4, true), RetryStep::Stop);
    assert_eq!(retry_decision(2, 4, true), RetryStep::Stop);
    assert_eq!(retry_decision(0, 4, false), RetryStep::SleepAndRetry);
    assert_eq!(retry_decision(2, 4, false), RetryStep::SleepAndRetry);
    assert_eq!(retry_decision(3, 4, false), RetryStep::SleepAndStop);
    assert_eq!(retry_decision(0, 1, false), RetryStep::SleepAndStop);
}
