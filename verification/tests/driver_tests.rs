use blockless::drivers::cgi::{
    extensions_json, get_db_file_name, mark_invalid, parse_cgi_request, parse_ext_verify,
    reconcile_entry, CgiCtx, CgiProcess, CgiSessions, ExtensionMeta, ExtensionMetaStatus,
};
use blockless::drivers::error::{CgiErrorKind, ErrorKind, HttpErrorKind, IpfsErrorKind, S3ErrorKind};
use blockless::drivers::handles::HandleTable;
use blockless::drivers::http::{copy_head, http_request_plan, HttpMethod};
use blockless::drivers::http_raw::{boundary_begin, boundary_end, HttpRaw, ReadStep, ResponseReader};
use blockless::drivers::ipfs::{inner_command, ipfs_endpoint, Api, FileApi, IpfsOp};
use blockless::drivers::memory::{env_var_names, env_var_object, read};
use blockless::drivers::read_ext::ReadRemain;
use blockless::drivers::registry::DriverConetxtImpl;
use blockless::drivers::s3::{
    bucket_command_kind, create_request, create_response, get_aws_config, list_request,
    list_response, BucketCommand, ListedObject, S3Ctx, S3Sessions, VecResult,
};
use blockless::drivers::socket::{set_fdflags, Socket2Type, SocketFileType};
use blockless::drivers::tcp::TcpDriver;
use blockless::json::Json;

#[test]
fn error_messages() {
    assert_eq!(ErrorKind::DriverNotFound.message(), "Driver not found.");
    assert_eq!(HttpErrorKind::RequestError.message(), "Request url");
    assert_eq!(IpfsErrorKind::InvalidParameter.message(), "Invalid parameter");
    assert_eq!(S3ErrorKind::CredentialsError.message(), "Credentials encoding");
    assert_eq!(CgiErrorKind::InvalidExtension.message(), "Invalid extension");
}

#[test]
fn read_remain_copies_in_pieces() {
    let mut v = VecResult::new(b"hello".to_vec());
    assert_eq!(v.remain(), 5);
    let mut buf = [0u8; 3];
    assert_eq!(v.copy_remain(&mut buf), 3);
    assert_eq!(&buf, b"hel");
    assert_eq!(v.copy_remain(&mut buf), 2);
    assert_eq!(&buf, b"lol");
    assert_eq!(v.copy_remain(&mut buf), 0);
    assert_eq!(v.remain(), 0);
}

#[test]
fn s3_sessions_read_and_close() {
    let mut s = S3Sessions::new();
    let h = s.open(S3Ctx::VecResult(VecResult::new(b"abc".to_vec())));
    assert_eq!(h, 1);
    let h2 = s.open(S3Ctx::Empty);
    assert_eq!(h2, 2);
    let mut buf = [0u8; 2];
    assert_eq!(s.read(h, &mut buf), Ok(2));
    assert_eq!(&buf, b"ab");
    assert_eq!(s.read(h, &mut buf), Ok(1));
    assert_eq!(s.read(h, &mut buf), Ok(0));
    let mut empty: [u8; 0] = [];
    assert_eq!(s.read(h, &mut empty), Err(S3ErrorKind::InvalidParameter));
    assert_eq!(s.read(h2, &mut buf), Err(S3ErrorKind::InvalidHandle));
    assert_eq!(s.close(h), Ok(()));
    assert_eq!(s.read(h, &mut buf), Err(S3ErrorKind::InvalidHandle));
    assert_eq!(s.close(42), Ok(()));
}

#[test]
fn s3_requests() {
    let c = create_request(r#"{"access_key":"a","secret_key":"s","endpoint":"e","bucket_name":"b"}"#).unwrap();
    assert_eq!(c.bucket_name, "b");
    assert_eq!(c.config.region, "us-east-1");
    let r = create_request(r#"{"access_key":"a","secret_key":"s","endpoint":"e","bucket_name":"b","region":"eu"}"#).unwrap();
    assert_eq!(r.config.region, "eu");
    assert!(matches!(create_request(r#"{"access_key":"a"}"#), Err(S3ErrorKind::InvalidParameter)));
    assert!(matches!(create_request("x"), Err(S3ErrorKind::InvalidParameter)));
    let l = list_request(r#"{"access_key":"a","secret_key":"s","endpoint":"e","bucket_name":"b","prefix":"p/"}"#).unwrap();
    assert_eq!(l.prefix, "p/");
    assert!(matches!(list_request(r#"{"bucket_name":"b"}"#), Err(S3ErrorKind::InvalidParameter)));
    assert_eq!(bucket_command_kind(2), Ok(BucketCommand::List));
    assert_eq!(bucket_command_kind(5), Err(S3ErrorKind::InvalidParameter));
    let doc = Json::Object(vec![("access_key".to_string(), Json::Str("a".to_string())), ("secret_key".to_string(), Json::Str("s".to_string()))]);
    assert!(matches!(get_aws_config(&doc), Err(S3ErrorKind::InvalidParameter)));
}

#[test]
fn s3_answers() {
    assert_eq!(create_response(200, "ok".to_string()), r#"{"code":200,"response_text":"ok"}"#);
    let items = vec![
        ListedObject { name: "a".into(), is_truncated: false, prefix: None },
        ListedObject { name: "b".into(), is_truncated: true, prefix: Some("p".into()) },
    ];
    assert_eq!(
        list_response(&items),
        r#"[{"name":"a","is_truncated":false},{"name":"b","is_truncated":true,"prefix":"p"}]"#
    );
}

#[test]
fn memory_driver_reads_text() {
    let mut buf = [0u8; 6];
    assert_eq!(read(&mut buf, "abc"), Ok(3));
    assert_eq!(&buf[..3], b"abc");
    let mut empty: [u8; 0] = [];
    assert_eq!(read(&mut empty, ""), Err(S3ErrorKind::InvalidParameter));
    assert_eq!(env_var_names("A;B"), vec!["A", "B"]);
    assert_eq!(env_var_names(""), vec![""]);
    let pairs = vec![("A".to_string(), "1".to_string()), ("B".to_string(), String::new())];
    assert_eq!(env_var_object(&pairs), r#"{"A": "1","B": ""}"#);
    assert_eq!(env_var_object(&vec![]), "}");
}

#[test]
fn registry_finds_by_lowercase_schema() {
    let mut r: DriverConetxtImpl<u32> = DriverConetxtImpl::new();
    r.insert_driver("TCP", 1);
    r.insert_driver("s3", 2);
    assert_eq!(r.find_driver("/tcp/127.0.0.1:80"), Some(&1));
    assert_eq!(r.find_driver("/TCP/x"), Some(&1));
    assert_eq!(r.find_driver("/http/x"), None);
    assert_eq!(r.find_driver("////"), None);
    r.insert_driver("tcp", 3);
    assert_eq!(r.find_driver("/tcp/x"), Some(&3));
    assert_eq!(r.get("s3"), Some(&2));
}

#[test]
fn handles_count_up() {
    let mut t: HandleTable<&str> = HandleTable::new();
    let a = t.increase_handle();
    t.insert(a, "a");
    let b = t.increase_handle();
    assert_eq!((a, b), (1, 2));
    assert!(t.contains(a));
    assert!(!t.contains(b));
    assert_eq!(t.remove(a), Some("a"));
    assert_eq!(t.get(a), None);
}

#[test]
fn tcp_driver_address() {
    assert_eq!(TcpDriver::connect_address("/tcp/127.0.0.1:80").unwrap(), "127.0.0.1:80");
    assert!(matches!(TcpDriver::connect_address("////"), Err(ErrorKind::DriverBadOpen)));
    assert!(matches!(TcpDriver::connect_address("/t<x/a"), Err(ErrorKind::DriverBadOpen)));
}

#[test]
fn http_request_options() {
    let p = http_request_plan(r#"{"method": "GET", "connectTimeout": 5}"#).unwrap();
    assert_eq!(p.method, HttpMethod::Get);
    assert_eq!(p.connect_timeout, Some(5));
    assert_eq!(p.read_timeout, None);
    assert_eq!(http_request_plan(r#"{"method": "post", "readTimeout": 2}"#).unwrap().method, HttpMethod::Post);
    assert_eq!(http_request_plan(r#"{"method": "put"}"#), Err(HttpErrorKind::RequestError));
    assert_eq!(http_request_plan(r#"{}"#), Err(HttpErrorKind::RequestError));
    assert_eq!(http_request_plan("x"), Err(HttpErrorKind::RequestError));
    let mut buf = [9u8; 4];
    assert_eq!(copy_head(&mut buf, "ab"), 2);
    assert_eq!(buf, [b'a', b'b', 9, 9]);
}

#[test]
fn ipfs_commands() {
    let c = inner_command(r#"{"api": "files/ls", "args": [{"name": "arg", "value": "/a b"}, {"name": "long", "value": true}, {"name": "n", "value": 3}]}"#).unwrap();
    assert_eq!(c.op, IpfsOp::Ls);
    assert_eq!(c.args.unwrap(), "arg=%2Fa+b&long=true&n=3");
    let c = inner_command(r#"{"api": "files/write"}"#).unwrap();
    assert_eq!(c.op, IpfsOp::Write);
    assert!(c.args.is_none());
    assert!(matches!(inner_command(r#"{"api": "files/cp"}"#), Err(IpfsErrorKind::InvalidMethod)));
    assert!(matches!(inner_command(r#"{"api": "files/ls", "args": [{"name": 1, "value": "x"}]}"#), Err(IpfsErrorKind::InvalidParameter)));
    assert!(matches!(inner_command(r#"{"api": "files/cp", "args": [{"value": "x"}]}"#), Err(IpfsErrorKind::InvalidParameter)));
    assert!(matches!(inner_command(r#"{}"#), Err(IpfsErrorKind::InvalidParameter)));
    assert_eq!(ipfs_endpoint(IpfsOp::Rm), "api/v0/files/rm");
    let api = FileApi::new(Api::new("127.0.0.1", 5001));
    assert_eq!(api.0.port, 5001);
}

#[test]
fn raw_requests() {
    let mut r = HttpRaw::from_url("http://127.0.0.1:5001/api/v0/files/write?arg=/a").unwrap();
    r.method("POST");
    r.insert_header("X".to_string(), "1".to_string());
    r.insert_header("X".to_string(), "2".to_string());
    let head = String::from_utf8(r.get_req_raw()).unwrap();
    assert_eq!(
        head,
        "POST /api/v0/files/write?arg=/a HTTP/1.1\r\nHost: 127.0.0.1:5001\r\nAccept: */*\r\nX: 1\r\nX: 2\r\n"
    );
    let mut r2 = HttpRaw::from_url("http://h/").unwrap();
    r2.insert_header("Accept".to_string(), "text/plain".to_string());
    assert_eq!(String::from_utf8(r2.header_raw()).unwrap(), "Host: h:80\r\nAccept: text/plain\r\n");
    assert!(matches!(HttpRaw::from_url("not a url"), Err(IpfsErrorKind::InvalidParameter)));
    assert!(matches!(r.boundary_request(b"x"), Err(IpfsErrorKind::RequestError)));
    r.boundary(Some("BB".to_string()));
    let body = String::from_utf8(r.boundary_request(b"data").unwrap()).unwrap();
    let inner = "--BB\r\nContent-Disposition: form-data\r\nContent-Type: application/octet-stream\r\n\r\ndata\r\n--BB--\r\n";
    assert_eq!(body, format!("Content-Length: {}\r\nContent-Type: multipart/form-data; boundary=BB\r\n\r\n{}", inner.len(), inner));
    assert_eq!(boundary_end("x"), b"\r\n--x--\r\n".to_vec());
    assert_eq!(boundary_begin("x"), b"--x\r\nContent-Disposition: form-data\r\nContent-Type: application/octet-stream\r\n\r\n".to_vec());
}

#[test]
fn response_reader_steps() {
    let mut rd = ResponseReader::new();
    assert_eq!(rd.on_read(b"HTTP/1.1 200 OK\r\nTransfer-Encoding: chunked\r\n"), ReadStep::NeedRead);
    let step = rd.on_read(b"\r\n4\r\nRust\r\n0\r\n\r\n");
    match step {
        ReadStep::Body(status, start, len) => {
            assert_eq!(status, 200);
            assert_eq!(rd.body(start, len), b"Rust".to_vec());
        },
        other => panic!("unexpected step {:?}", other),
    }
    let mut bad = ResponseReader::new();
    assert_eq!(bad.on_read(b"\x00\x01 garbage\r\n\r\n"), ReadStep::Failed(IpfsErrorKind::RequestError));
}

#[test]
fn cgi_requests_and_programs() {
    let req = parse_cgi_request(r#"{"command": "ls", "args": ["-l", 1, "x"], "envs": [{"env_name": "A", "env_val": "1"}, {"env_name": "B"}]}"#).unwrap();
    assert_eq!(req.command, "ls");
    assert_eq!(req.args, vec!["-l", "x"]);
    assert_eq!(req.envs, vec![("A".to_string(), "1".to_string())]);
    assert!(matches!(parse_cgi_request(r#"{"args": []}"#), Err(CgiErrorKind::InvalidParameter)));
    assert!(matches!(parse_cgi_request("{"), Err(CgiErrorKind::InvalidParameter)));
    let p = CgiProcess::new("/ext".to_string(), req, Some("ls-bin".to_string())).unwrap();
    assert_eq!(p.exec_file(), "/ext/ls-bin");
    let req = parse_cgi_request(r#"{"command": "ls"}"#).unwrap();
    assert!(matches!(CgiProcess::new("/ext".to_string(), req, None), Err(CgiErrorKind::InvalidExtension)));
    assert_eq!(get_db_file_name("/ext"), "/ext/.extsdb");
}

#[test]
fn cgi_extension_records() {
    let v = parse_ext_verify("  {\"alias\":\"f1\", \"description\":\"eeeeee\", \"is_cgi\":true}\n").unwrap().unwrap();
    assert_eq!(v.alias, "f1");
    assert_eq!(v.description.as_deref(), Some("eeeeee"));
    assert!(v.md5.is_none());
    assert!(parse_ext_verify(r#"{"alias":"f1", "is_cgi":false}"#).unwrap().is_none());
    assert!(parse_ext_verify(r#"{"is_cgi":true}"#).unwrap().is_none());
    assert!(parse_ext_verify("nope").is_err());
    let mut m = ExtensionMeta::default();
    m.file_name = "f1".into();
    m.alias = "a".into();
    m.md5 = "00".into();
    m.description = "d".into();
    assert_eq!(extensions_json(&vec![m]), r#"[{"fileName":"f1","alias":"a","md5":"00","description":"d"}]"#);
    let mut m1 = ExtensionMeta::default();
    m1.file_name = "f1".into();
    let mut m2 = ExtensionMeta::default();
    m2.file_name = "f2".into();
    let mut known = mark_invalid(vec![m1, m2]);
    assert!(known.iter().all(|m| m.status == ExtensionMetaStatus::Invalid));
    assert!(reconcile_entry(&mut known, "f2", &"ff".to_string()));
    assert!(!reconcile_entry(&mut known, "f3", &"ff".to_string()));
    assert_eq!(known[1].status, ExtensionMetaStatus::UPDATE);
    assert_eq!(known[1].md5, "ff");
    assert_eq!(known[0].status, ExtensionMetaStatus::Invalid);
    let s: ExtensionMetaStatus = 7.into();
    assert_eq!(s, ExtensionMetaStatus::Invalid);
    assert_eq!(ExtensionMetaStatus::Invalid.code(), -1);
}

#[test]
fn cgi_sessions() {
    let mut s: CgiSessions<u8> = CgiSessions::new();
    let h = s.cgi_directory_list_exec("abcde".to_string());
    let mut buf = [0u8; 3];
    assert_eq!(s.cgi_directory_list_read(h, &mut buf), Ok(3));
    assert_eq!(&buf, b"abc");
    assert_eq!(s.cgi_directory_list_read(h, &mut buf), Ok(2));
    assert_eq!(s.cgi_directory_list_read(h, &mut buf), Ok(0));
    let p = s.open(CgiCtx::Process(7));
    assert!(matches!(s.take_process(h), Err(CgiErrorKind::InvalidHandle)));
    assert_eq!(s.take_process(p), Ok(7));
    s.put_process(p, 8);
    assert_eq!(s.cgi_directory_list_read(p, &mut buf), Err(CgiErrorKind::InvalidHandle));
    assert!(matches!(s.take_process(p), Err(CgiErrorKind::InvalidHandle)));
    assert_eq!(s.close(h), Ok(()));
    assert_eq!(s.close(h), Err(CgiErrorKind::InvalidHandle));
}

#[test]
fn sockets() {
    assert_eq!(Socket2Type::StreamListener.accepted(), Socket2Type::SocketStream);
    assert_eq!(Socket2Type::DgramListener.accepted(), Socket2Type::SocketDgram);
    assert_eq!(Socket2Type::SocketStream.get_filetype(), SocketFileType::SocketStream);
    assert_eq!(set_fdflags(4), Some(true));
    assert_eq!(set_fdflags(0), Some(false));
    assert_eq!(set_fdflags(1), None);
}
