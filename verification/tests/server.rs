use huddle::audio_observer::{on_silence, on_volumes, INTERVAL};
use huddle::codecs::{
    media_codecs, CodecParameter, MimeTypeAudio, MimeTypeVideo, RtcpFeedback, RtpCodecCapability,
};
use huddle::media::{AudioLevel, ProducerId};
use huddle::room::Event;
use huddle::server::{
    Error, IpAddress, JoinAnswer, Launch, LaunchOptions, ListenInfo, Protocol, RoomTx, Server,
    Stage, WorkerLogLevel, WorkerLogTag,
};
use huddle::settings::{
    user_agent, Settings, CHANNEL_CAPACITY, SERVER_PORT, WORKER_MAX_PORT, WORKER_MIN_PORT, WS_PORT,
};
use huddle::uid::Uid;

fn options() -> LaunchOptions {
    LaunchOptions {
        num_workers: 3,
        local_ip: IpAddress::V4(0x7f00_0001),
        announced_ip: "10.0.0.1".to_string(),
        worker_min_port: 40000,
        worker_max_port: 40100,
        server_port: 44444,
    }
}

fn launched(workers: usize) -> Server {
    let mut launch = Launch::new(workers);
    for _ in 0..2 * workers {
        launch.report(true);
    }
    Server::new(launch).ok().unwrap()
}

#[test]
fn workers_and_servers_start_in_turn() {
    let mut launch = Launch::new(2);
    assert_eq!(launch.stage(), Stage::CreateWorker { idx: 0 });
    launch.report(true);
    assert_eq!(launch.stage(), Stage::CreateRtcServer { idx: 0 });
    launch.report(true);
    assert_eq!(launch.stage(), Stage::CreateWorker { idx: 1 });
    launch.report(true);
    assert_eq!(launch.stage(), Stage::CreateRtcServer { idx: 1 });
    launch.report(true);
    assert_eq!(launch.stage(), Stage::Ready);
    launch.report(false);
    assert_eq!(launch.stage(), Stage::Ready);
}

#[test]
fn no_workers_are_ready_at_once() {
    let launch = Launch::new(0);
    assert_eq!(launch.stage(), Stage::Ready);
    assert!(Server::new(launch).is_ok());
}

#[test]
fn the_first_failure_decides() {
    let mut launch = Launch::new(2);
    launch.report(true);
    launch.report(true);
    launch.report(false);
    assert_eq!(launch.stage(), Stage::Failed(Error::Worker));
    launch.report(true);
    assert_eq!(Server::new(launch).err(), Some(Error::Worker));

    let mut launch = Launch::new(1);
    launch.report(true);
    launch.report(false);
    assert_eq!(Server::new(launch).err(), Some(Error::RtcServer));
}

#[test]
fn server_errors_are_told_apart() {
    assert_ne!(Error::RoomAlreadyExists(Uid(1)), Error::RoomAlreadyExists(Uid(2)));
    assert_ne!(Error::Unknown, Error::Worker);
}

#[test]
fn each_worker_has_its_port() {
    assert_eq!(
        options().listen_info(2),
        ListenInfo {
            protocol: Protocol::Udp,
            ip: IpAddress::V4(0x7f00_0001),
            announced_address: Some("10.0.0.1".to_string()),
            port: Some(44446),
            port_range: Some((40000, 40100)),
        }
    );
    assert_eq!(options().listen_info(0).port, Some(44444));
    assert_eq!(options().listen_info(65535 - 44444).port, Some(65535));
    assert_eq!(options().listen_info(65536).port, Some(44444));
    assert!(options().has_port(65535 - 44444));
    assert!(!options().has_port(65536 - 44444));
    assert!(options().has_port(65536));
}

#[test]
fn workers_log_everything() {
    let settings = options().worker_settings();
    assert_eq!((settings.rtc_min_port, settings.rtc_max_port), (40000, 40100));
    assert_eq!(settings.log_level, WorkerLogLevel::Debug);
    assert_eq!(settings.log_tags.len(), 13);
    assert_eq!(settings.log_tags[0], WorkerLogTag::Info);
    assert_eq!(settings.log_tags[8], WorkerLogTag::Score);
    assert_eq!(settings.log_tags[12], WorkerLogTag::Message);
}

#[test]
fn rooms_go_round_the_workers() {
    let mut server = launched(3);
    let mut counts = [0; 3];
    for i in 0..8u64 {
        let worker = server.place_room(Uid(i), RoomTx(i));
        assert_eq!(worker as u64, i % 3);
        counts[worker] += 1;
        let most = *counts.iter().max().unwrap();
        let least = *counts.iter().min().unwrap();
        assert!(most - least <= 1);
    }
    assert_eq!(server.get_next_worker(), 2);
    assert_eq!(server.get_next_worker(), 0);
}

#[test]
fn rooms_are_found_by_their_id() {
    let mut server = launched(2);
    assert_eq!(server.get_room(Uid(5)), None);
    assert_eq!(server.join_room(Uid(5)), JoinAnswer::NotFound);
    server.place_room(Uid(5), RoomTx(50));
    server.place_room(Uid(6), RoomTx(60));
    assert_eq!(server.get_room(Uid(5)), Some(&RoomTx(50)));
    assert_eq!(server.get_room(Uid(6)), Some(&RoomTx(60)));
    assert_eq!(server.get_room(Uid(7)), None);
    assert_eq!(server.join_room(Uid(5)), JoinAnswer::Upgrade(RoomTx(50)));
    server.place_room(Uid(5), RoomTx(51));
    assert_eq!(server.get_room(Uid(5)), Some(&RoomTx(51)));
}

#[test]
fn created_rooms_have_fresh_ids() {
    let mut server = launched(2);
    let a = server.create_room(RoomTx(1));
    let b = server.create_room(RoomTx(2));
    assert_ne!(a.id, b.id);
    assert_eq!((a.worker, b.worker), (0, 1));
    assert_eq!(server.get_room(a.id), Some(&RoomTx(1)));
    assert_eq!(server.get_room(b.id), Some(&RoomTx(2)));
}

#[test]
fn codecs_are_opus_and_vp8_and_vp9() {
    let video = |mime_type| RtpCodecCapability::Video {
        mime_type,
        preferred_payload_type: None,
        clock_rate: 90000,
        parameters: vec![],
        rtcp_feedback: vec![
            RtcpFeedback::Nack,
            RtcpFeedback::NackPli,
            RtcpFeedback::CcmFir,
            RtcpFeedback::GoogRemb,
            RtcpFeedback::TransportCc,
        ],
    };
    assert_eq!(
        media_codecs(),
        vec![
            RtpCodecCapability::Audio {
                mime_type: MimeTypeAudio::Opus,
                preferred_payload_type: None,
                clock_rate: 48000,
                channels: 2,
                parameters: vec![CodecParameter { name: "useinbandfec".to_string(), value: 1 }],
                rtcp_feedback: vec![RtcpFeedback::TransportCc],
            },
            video(MimeTypeVideo::Vp8),
            video(MimeTypeVideo::Vp9),
        ]
    );
}

#[test]
fn the_loudest_is_heard_of() {
    let level = |id, volume| AudioLevel { producer_id: ProducerId(id), volume };
    assert_eq!(
        on_volumes(&vec![level(1, -20), level(2, -50)]),
        Event::OnAudioLevelsChange { producer: Some(level(1, -20)) }
    );
    assert_eq!(on_volumes(&vec![]), Event::OnAudioLevelsChange { producer: None });
    assert_eq!(on_silence(), Event::OnAudioLevelsChange { producer: None });
    assert_eq!(INTERVAL, 500);
}

#[test]
fn settings_come_from_the_environment() {
    let text = |s: &str| Some(s.to_string());
    assert_eq!(
        Settings::read(None, None, None),
        Settings {
            use_tls: false,
            announced_ip: "127.0.0.1".to_string(),
            local_ip: "127.0.0.1".to_string(),
        }
    );
    assert_eq!(
        Settings::read(text("true"), text("1.2.3.4"), text("0.0.0.0")),
        Settings {
            use_tls: true,
            announced_ip: "1.2.3.4".to_string(),
            local_ip: "0.0.0.0".to_string(),
        }
    );
    assert!(!Settings::read(text("True"), None, None).use_tls);
    assert!(!Settings::read(text(""), None, None).use_tls);
    assert_eq!((WS_PORT, SERVER_PORT, CHANNEL_CAPACITY), (3001, 44444, 1024));
    assert_eq!((WORKER_MIN_PORT, WORKER_MAX_PORT), (40000, 40100));
}

#[test]
fn unnamed_browsers_are_unknown() {
    assert_eq!(user_agent(Some("Lynx".to_string())), "Lynx");
    assert_eq!(user_agent(None), "Unknown browser");
}
