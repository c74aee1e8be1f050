use aifficator::p2p::catalog::{
    backup_file_name, catalog_error, catalog_request, download_file_name, catalog_limit, check_catalog_response, check_download_header,
    file_error, file_header_length, file_ok_header, frame_file_header, next_read_capacity,
    temporary_file_name, valid_catalog_request, valid_file_request, with_provider,
    CatalogRequest, FileRequest, PROTOCOL_VERSION,
};
use aifficator::p2p::chat::{
    accepts_incoming, chat_history_query, chat_targets, DeliveryTally, chat_list_limit, check_chat_ack, delivery_status,
    private_peer, valid_wire_message, validate_body, validate_room, ChatAck, ChatWireMessage,
    MAX_CHAT_BODY_CHARS,
};
use uuid::Uuid;

#[test]
fn catalog_and_file_requests_are_bounded() {
    assert!(valid_catalog_request(&CatalogRequest {
        version: PROTOCOL_VERSION,
        query: "house".to_string(),
        limit: 100,
    }));
    assert!(!valid_catalog_request(&CatalogRequest {
        version: PROTOCOL_VERSION,
        query: "x".repeat(513),
        limit: 100,
    }));
    assert!(valid_file_request(&FileRequest {
        version: PROTOCOL_VERSION,
        share_id: Uuid::new_v4().to_string(),
        file_id: Uuid::new_v4().to_string(),
    }));
}

#[test]
fn chat_messages_are_versioned_and_bounded() {
    let mut message = ChatWireMessage {
        version: 1,
        id: Uuid::new_v4().to_string(),
        room: "private".to_string(),
        sender_endpoint_id: "endpoint".to_string(),
        sender_display_name: "Rau Test".to_string(),
        body: "hola".to_string(),
        sent_at: chrono::Utc::now().to_rfc3339(),
        endpoint_ticket: None,
    };
    assert!(valid_wire_message(&message));
    message.body = "x".repeat(MAX_CHAT_BODY_CHARS + 1);
    assert!(!valid_wire_message(&message));
    assert!(validate_room("general").is_ok());
    assert!(validate_room("public-internet").is_err());
}

#[test]
fn catalog_limits_and_errors() {
    assert_eq!(catalog_limit(None), 100);
    assert_eq!(catalog_limit(Some(0)), 1);
    assert_eq!(catalog_limit(Some(999)), 200);
    assert!(!valid_catalog_request(&CatalogRequest {
        version: 2,
        query: "a".to_string(),
        limit: 1,
    }));
    assert!(!valid_file_request(&FileRequest {
        version: PROTOCOL_VERSION,
        share_id: String::new(),
        file_id: "f".to_string(),
    }));
    let response = catalog_error::<String>("nope".to_string());
    assert_eq!(response.error.as_deref(), Some("nope"));
    let response = with_provider(response, "me");
    assert_eq!(response.provider_endpoint_id, "me");
    let header = file_error("bad".to_string());
    assert!(!header.ok);
    assert_eq!(check_download_header(&header).unwrap_err(), "bad");
    let ok = file_ok_header("a.wav".to_string(), 10, None);
    assert!(check_download_header(&ok).is_ok());
    let huge = file_ok_header("a.wav".to_string(), 100 * 1024 * 1024 * 1024 + 1, None);
    assert!(check_download_header(&huge).is_err());
}

#[test]
fn catalog_answers_must_match_the_authenticated_peer() {
    assert!(check_catalog_response(1, "peer", &vec!["peer".to_string()], None, "peer").is_ok());
    assert_eq!(
        check_catalog_response(1, "peer", &vec!["other".to_string()], None, "peer").unwrap_err(),
        "El catalogo no coincide con la identidad autenticada del peer."
    );
    assert_eq!(
        check_catalog_response(1, "peer", &vec![], Some("busy".to_string()), "peer").unwrap_err(),
        "busy"
    );
}

#[test]
fn file_header_framing_roundtrip() {
    let encoded = b"{\"ok\":true}".to_vec();
    let framed = frame_file_header(&encoded).unwrap();
    assert_eq!(&framed[..4], &[0, 0, 0, 11]);
    let prefix = [framed[0], framed[1], framed[2], framed[3]];
    assert_eq!(file_header_length(prefix).unwrap(), 11);
    assert!(file_header_length([0, 0, 0, 0]).is_err());
    assert!(file_header_length([0, 0, 0x40, 0x01]).is_err());
    assert_eq!(next_read_capacity(100, 0), 100);
    assert_eq!(next_read_capacity(1 << 20, 0), 65536);
    assert_eq!(next_read_capacity(10, 10), 0);
    assert_eq!(temporary_file_name("a.wav", "t"), ".a.wav.rau-part-t");
    assert_eq!(backup_file_name("a.wav", "t"), ".a.wav.rau-backup-t");
}

#[test]
fn chat_rooms_bodies_and_acks() {
    assert_eq!(validate_room("  GENERAL ").unwrap(), "general");
    assert_eq!(validate_body("  hola ").unwrap(), "hola");
    assert!(validate_body("   ").is_err());
    assert!(validate_body(&"x".repeat(4001)).is_err());
    assert_eq!(delivery_status(2, 2), "delivered");
    assert_eq!(delivery_status(1, 2), "partial");
    assert_eq!(delivery_status(0, 2), "failed");
    assert_eq!(chat_list_limit(None), 200);
    assert_eq!(chat_list_limit(Some(10_000)), 500);
    assert!(private_peer(Some(" ".to_string()), "missing").is_err());
    assert!(chat_history_query(true, 5).ends_with("AND peer_endpoint_id = ?2 ORDER BY sent_at DESC, created_at DESC LIMIT 5"));
    let ack = ChatAck {
        version: 1,
        message_id: "m".to_string(),
        receiver_endpoint_id: "peer".to_string(),
        accepted: false,
        error: None,
        received_at: "t".to_string(),
    };
    assert_eq!(check_chat_ack(&ack, "m", "peer").unwrap_err(), "El peer rechazo el mensaje.");
    assert_eq!(
        check_chat_ack(&ack, "other", "peer").unwrap_err(),
        "La confirmacion no coincide con el peer autenticado."
    );
    let message = ChatWireMessage {
        version: 1,
        id: Uuid::new_v4().to_string(),
        room: "general".to_string(),
        sender_endpoint_id: "peer".to_string(),
        sender_display_name: "Ana".to_string(),
        body: "hola".to_string(),
        sent_at: "2024-01-01T00:00:00+00:00".to_string(),
        endpoint_ticket: None,
    };
    assert!(accepts_incoming(&message, "peer"));
    assert!(!accepts_incoming(&message, "someone-else"));
}

#[test]
fn download_destinations_need_a_file_name() {
    assert_eq!(download_file_name("  /Users/me/Music/song.wav  ").unwrap(), "song.wav");
    assert_eq!(download_file_name("song.wav").unwrap(), "song.wav");
    assert_eq!(
        download_file_name("/").unwrap_err(),
        "Selecciona un destino de archivo valido."
    );
    assert!(download_file_name("   ").is_err());
    assert!(download_file_name("/Users/me/..").is_err());
}

#[test]
fn chat_recipients_and_delivery_tally() {
    assert_eq!(
        chat_targets(true, Some("peer-a".to_string()), vec!["x".to_string()]).unwrap(),
        vec!["peer-a".to_string()]
    );
    assert_eq!(
        chat_targets(true, Some("  ".to_string()), vec![]).unwrap_err(),
        "Selecciona un peer para enviar el mensaje privado."
    );
    assert_eq!(
        chat_targets(false, None, vec![]).unwrap_err(),
        "No hay peers con ticket de retorno para recibir el mensaje."
    );
    assert_eq!(
        chat_targets(false, None, vec!["a".to_string(), "b".to_string()]).unwrap(),
        vec!["a".to_string(), "b".to_string()]
    );

    let mut tally = DeliveryTally::new();
    tally.record(Err("timeout".to_string()));
    tally.record(Ok(()));
    assert_eq!(tally.delivered, 1);
    assert_eq!(delivery_status(tally.delivered, 2), "partial");
    assert_eq!(tally.finish(), Ok(1));

    let mut none = DeliveryTally::new();
    none.record(Err("first".to_string()));
    none.record(Err("second".to_string()));
    assert_eq!(delivery_status(none.delivered, 2), "failed");
    assert_eq!(none.finish(), Err("second".to_string()));
    assert_eq!(DeliveryTally::new().finish(), Err("Ningun peer recibio el mensaje.".to_string()));
}

#[test]
fn searches_send_the_trimmed_query_and_clamped_limit() {
    let request = catalog_request("  house ", None);
    assert_eq!(request.query, "house");
    assert_eq!(request.limit, 100);
    assert_eq!(catalog_request("x", Some(0)).limit, 1);
    assert_eq!(catalog_request("x", Some(57)).limit, 57);
    assert_eq!(catalog_request("x", Some(500)).limit, 200);
    assert_eq!(request.version, PROTOCOL_VERSION);
}
