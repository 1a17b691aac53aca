use port_capture::errors::CaptureError;
use port_capture::ports::{find_openport, PortScanner};

#[test]
fn first_free_port_of_partly_occupied_range() {
    // Range [8000, 8003): 8000 and 8001 occupied, 8002 free.
    let available = vec![false, false, true];
    assert_eq!(find_openport(8000, 8003, &available), Ok(8002));
}

#[test]
fn fully_occupied_range_has_no_port() {
    let available = vec![false, false, false];
    assert_eq!(
        find_openport(8000, 8003, &available),
        Err(CaptureError::PortUnavailable)
    );
}

#[test]
fn empty_range_has_no_port() {
    let available: Vec<bool> = Vec::new();
    assert_eq!(
        find_openport(9000, 9000, &available),
        Err(CaptureError::PortUnavailable)
    );
}

#[test]
fn first_of_all_free_range_wins() {
    let available = vec![true, true];
    assert_eq!(find_openport(8000, 8002, &available), Ok(8000));
}

#[test]
fn scanner_walks_candidates_in_ascending_order() {
    let mut scanner = PortScanner::new(8000, 8002);
    assert_eq!(scanner.candidate(), Some(8000));
    scanner.advance();
    assert_eq!(scanner.candidate(), Some(8001));
    scanner.advance();
    assert_eq!(scanner.candidate(), None);
}
