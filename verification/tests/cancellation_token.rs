use atomiq::{Cancel, CancellationToken};

#[test]
fn test_cancellation_token() {
    let mut token = CancellationToken::new();
    assert!(!token.is_cancelled());

    token.cancel();
    assert!(token.is_cancelled());
}

#[test]
fn test_option_cancellation_token_some() {
    let token = CancellationToken::new();

    let mut opt_token = Some(token);

    assert!(!opt_token.is_cancelled());
    assert!(!opt_token.fetch_cancel());
    assert!(opt_token.is_cancelled());
    assert!(opt_token.fetch_cancel());
}

#[test]
fn test_option_cancellation_token_none() {
    let mut opt_token: Option<CancellationToken> = None;

    assert!(!opt_token.is_cancelled());
    assert!(!opt_token.fetch_cancel());
    assert!(!opt_token.is_cancelled());
    assert!(!opt_token.fetch_cancel());
}

#[test]
fn cancellation_is_monotonic() {
    let mut token = CancellationToken::new();
    assert!(!token.is_cancelled());

    assert!(!token.fetch_cancel());
    assert!(token.fetch_cancel());
    assert!(token.is_cancelled());

    token.cancel();
    assert!(token.is_cancelled());
    token.cancel();
    assert!(token.is_cancelled());
}
