use bloom_cache::command::{
    ControlCommand, ControlCommandResponse, ControlSession, ControlStep, FlushRequest,
};
use bloom_cache::store::{CachePurgeVariant, CacheStoreError};

#[test]
fn it_matches_command_response_string() {
    assert_eq!(ControlCommandResponse::Nil.to_str(), "NIL");
    assert_eq!(ControlCommandResponse::Okay.to_str(), "OK");
    assert_eq!(ControlCommandResponse::Pong.to_str(), "PONG");
    assert_eq!(ControlCommandResponse::Ended.to_str(), "ENDED quit");
    assert_eq!(ControlCommandResponse::Error.to_str(), "ERR");
}

#[test]
fn void_response_is_empty() {
    assert_eq!(ControlCommandResponse::Void.to_str(), "");
}

#[test]
fn shard_then_flush_bucket_scopes_to_shard() {
    let mut session = ControlSession::new(0);
    assert_eq!(
        session.handle_line("SHARD 3"),
        ControlStep::Reply(ControlCommandResponse::Okay)
    );
    assert_eq!(session.shard, 3);
    let step = session.handle_line("FLUSHBUCKET mybucket");
    assert_eq!(
        step,
        ControlStep::Flush(FlushRequest::Bucket { shard: 3, bucket: "mybucket".to_string() })
    );
    if let ControlStep::Flush(request) = step {
        assert_eq!(request.variant(), CachePurgeVariant::Bucket);
    }
}

#[test]
fn non_numeric_shard_is_refused_and_kept() {
    let mut session = ControlSession::new(5);
    assert_eq!(
        session.handle_line("SHARD abc"),
        ControlStep::Reply(ControlCommandResponse::Error)
    );
    assert_eq!(session.shard, 5);
}

#[test]
fn shard_out_of_range_is_refused() {
    let mut shard: u8 = 9;
    assert_eq!(ControlCommand::dispatch_shard(&mut shard, "256"), Err(None));
    assert_eq!(shard, 9);
    assert_eq!(ControlCommand::dispatch_shard(&mut shard, ""), Err(None));
    assert_eq!(ControlCommand::dispatch_shard(&mut shard, "-1"), Err(None));
    assert_eq!(shard, 9);
}

#[test]
fn shard_accepts_bounds_and_plus_sign() {
    let mut shard: u8 = 9;
    assert_eq!(
        ControlCommand::dispatch_shard(&mut shard, "255"),
        Ok(ControlCommandResponse::Okay)
    );
    assert_eq!(shard, 255);
    assert_eq!(
        ControlCommand::dispatch_shard(&mut shard, "+0"),
        Ok(ControlCommandResponse::Okay)
    );
    assert_eq!(shard, 0);
}

#[test]
fn ping_pongs_in_any_shard() {
    for shard in [0u8, 1, 200, 255] {
        let mut session = ControlSession::new(shard);
        assert_eq!(
            session.handle_line("PING"),
            ControlStep::Reply(ControlCommandResponse::Pong)
        );
        assert_eq!(session, ControlSession::new(shard));
    }
    assert_eq!(ControlCommand::dispatch_ping(), Ok(ControlCommandResponse::Pong));
}

#[test]
fn quit_ends_and_later_lines_are_ignored() {
    let mut session = ControlSession::new(1);
    assert_eq!(
        session.handle_line("QUIT"),
        ControlStep::Close(ControlCommandResponse::Ended)
    );
    assert!(session.ended);
    assert_eq!(session.handle_line("PING"), ControlStep::Ignored);
    assert_eq!(session.handle_line("SHARD 4"), ControlStep::Ignored);
    assert_eq!(session.shard, 1);
    assert_eq!(ControlCommand::dispatch_quit(), Ok(ControlCommandResponse::Ended));
}

#[test]
fn flush_auth_scopes_to_shard_and_auth() {
    let mut session = ControlSession::new(2);
    let step = session.handle_line("  FLUSHAUTH\tauth42  ");
    assert_eq!(
        step,
        ControlStep::Flush(FlushRequest::Auth { shard: 2, auth: "auth42".to_string() })
    );
    if let ControlStep::Flush(request) = step {
        assert_eq!(request.variant(), CachePurgeVariant::Auth);
    }
}

#[test]
fn flush_without_argument_is_refused() {
    let mut session = ControlSession::new(0);
    assert_eq!(
        session.handle_line("FLUSHBUCKET"),
        ControlStep::Reply(ControlCommandResponse::Error)
    );
    assert_eq!(
        session.handle_line("FLUSHAUTH"),
        ControlStep::Reply(ControlCommandResponse::Error)
    );
    assert_eq!(ControlCommand::dispatch_flush_bucket(&0, ""), Err(None));
    assert_eq!(ControlCommand::dispatch_flush_auth(&0, ""), Err(None));
}

#[test]
fn unknown_or_empty_line_is_refused() {
    let mut session = ControlSession::new(0);
    assert_eq!(
        session.handle_line("FLUSH everything"),
        ControlStep::Reply(ControlCommandResponse::Error)
    );
    assert_eq!(session.handle_line("ping"), ControlStep::Reply(ControlCommandResponse::Error));
    assert_eq!(session.handle_line(""), ControlStep::Reply(ControlCommandResponse::Error));
    assert!(!session.ended);
}

#[test]
fn flush_outcome_maps_to_response() {
    assert_eq!(ControlSession::finish_flush(Ok(())), ControlCommandResponse::Okay);
    assert_eq!(
        ControlSession::finish_flush(Err(CacheStoreError::Disconnected)),
        ControlCommandResponse::Error
    );
    assert_eq!(ControlCommand::proceed_flush(Err(CacheStoreError::Failed)), Err(None));
    assert_eq!(ControlCommand::response(Err(None)), ControlCommandResponse::Error);
}
