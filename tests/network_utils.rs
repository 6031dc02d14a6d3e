use notification_listener::ports::find_available_port;

#[test]
fn test_find_available_port() {
    let port = find_available_port(10035, |_p: u16| true);
    assert!(port.is_some());
}

#[test]
fn first_free_port_wins() {
    let port = find_available_port(10035, |p: u16| p >= 10040);
    assert_eq!(port, Some(10040));
}

#[test]
fn start_port_itself_may_be_free() {
    assert_eq!(find_available_port(8080, |p: u16| p == 8080), Some(8080));
}

#[test]
fn last_port_of_window_is_tried() {
    assert_eq!(find_available_port(10035, |p: u16| p == 10135), Some(10135));
    assert_eq!(find_available_port(10035, |p: u16| p == 10136), None);
}

#[test]
fn fully_occupied_window_gives_none() {
    assert_eq!(find_available_port(20000, |_p: u16| false), None);
}

#[test]
fn window_stops_at_largest_port() {
    assert_eq!(find_available_port(65500, |p: u16| p == 65535), Some(65535));
    assert_eq!(find_available_port(65535, |_p: u16| false), None);
}
