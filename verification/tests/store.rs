use jwt_session::error::Error;
use jwt_session::store::{StoreFault, StoreReply};

#[test]
fn pool_and_transport_faults_are_connection_errors() {
    assert_eq!(Error::of_fault(StoreFault::PoolExhausted), Error::ConnectionError);
    assert_eq!(Error::of_fault(StoreFault::Transport), Error::ConnectionError);
}

#[test]
fn type_mismatch_is_a_type_error() {
    assert_eq!(Error::of_fault(StoreFault::TypeMismatch), Error::TypeError);
}

#[test]
fn rejection_is_a_store_error() {
    assert_eq!(Error::of_fault(StoreFault::Rejected), Error::StoreError);
}

#[test]
fn write_succeeds_on_any_answer() {
    assert_eq!(StoreReply::Other.into_write_outcome(), Ok(()));
    assert_eq!(StoreReply::Nil.into_write_outcome(), Ok(()));
    assert_eq!(StoreReply::Data(vec![1, 2]).into_write_outcome(), Ok(()));
}

#[test]
fn write_fails_without_an_answer() {
    assert_eq!(
        StoreReply::Failed(StoreFault::PoolExhausted).into_write_outcome(),
        Err(Error::ConnectionError)
    );
    assert_eq!(
        StoreReply::Failed(StoreFault::Rejected).into_write_outcome(),
        Err(Error::StoreError)
    );
}

#[test]
fn read_gives_the_bytes() {
    assert_eq!(StoreReply::Data(vec![98, 108, 117, 101]).into_read_outcome(), Ok(vec![98, 108, 117, 101]));
    assert_eq!(StoreReply::Data(Vec::new()).into_read_outcome(), Ok(Vec::new()));
}

#[test]
fn read_of_nothing_is_not_found() {
    assert_eq!(StoreReply::Nil.into_read_outcome(), Err(Error::NotFound));
}

#[test]
fn read_of_another_shape_is_a_type_error() {
    assert_eq!(StoreReply::Other.into_read_outcome(), Err(Error::TypeError));
}

#[test]
fn read_fails_without_an_answer() {
    assert_eq!(
        StoreReply::Failed(StoreFault::Transport).into_read_outcome(),
        Err(Error::ConnectionError)
    );
    assert_eq!(
        StoreReply::Failed(StoreFault::TypeMismatch).into_read_outcome(),
        Err(Error::TypeError)
    );
    assert_eq!(
        StoreReply::Failed(StoreFault::Rejected).into_read_outcome(),
        Err(Error::StoreError)
    );
}
