use auto_deploy::dispatch::{handle_webhook, WebhookOutcome};
use auto_deploy::executor::{select_interpreter, ExecutionResult};
use auto_deploy::logger::{record_deployment, DeploymentLog};
use auto_deploy::registry::get_script_path;

#[test]
fn deploy_project_a() {
    let res = handle_webhook("project-b", "/srv");
    println!("{:?}", res.status());
}

#[test]
fn deploy_project_b() {
    let res = handle_webhook("project-b", "/srv");
    println!("{:?}", res.status());
}

#[test]
fn resolve_known_projects() {
    let a = get_script_path("/srv", "project-a");
    assert_eq!(a.as_deref(), Some("/srv/scripts/deploy.sh"));
    let b = get_script_path("/srv", "project-b");
    assert_eq!(b.as_deref(), Some("/srv/scripts/deploy.zx.mjs"));
}

#[test]
fn resolve_unknown_project() {
    assert_eq!(get_script_path("/srv", "project-c"), None);
    assert_eq!(get_script_path("/srv", ""), None);
    assert_eq!(get_script_path("/srv", "project-a "), None);
}

#[test]
fn resolve_twice_same_path() {
    let first = get_script_path("/srv/base", "project-a");
    let second = get_script_path("/srv/base", "project-a");
    assert_eq!(first, second);
    let first = get_script_path("/srv/base", "project-b");
    let second = get_script_path("/srv/base", "project-b");
    assert_eq!(first, second);
}

#[test]
fn webhook_known_project_accepted() {
    match handle_webhook("project-a", "/srv") {
        WebhookOutcome::Accepted { status, body, script_path } => {
            assert_eq!(status, 200);
            assert_eq!(body, "开始部署项目...");
            assert_eq!(script_path, "/srv/scripts/deploy.sh");
        }
        WebhookOutcome::Rejected { .. } => panic!("known project was rejected"),
    }
}

#[test]
fn webhook_unknown_project_rejected() {
    match handle_webhook("project-c", "/srv") {
        WebhookOutcome::Rejected { status, body } => {
            assert_eq!(status, 400);
            assert_eq!(body, "无法获取部署脚本");
        }
        WebhookOutcome::Accepted { .. } => panic!("unknown project was accepted"),
    }
}

#[test]
fn interpreter_by_suffix() {
    assert_eq!(select_interpreter("/srv/scripts/deploy.zx.mjs"), "zx");
    assert_eq!(select_interpreter("/srv/scripts/deploy.sh"), "sh");
    assert_eq!(select_interpreter("deploy.mjs"), "sh");
    assert_eq!(select_interpreter(""), "sh");
    assert_eq!(select_interpreter(".zx.mjs"), "zx");
}

fn assert_timestamped(line: &str) {
    let chars: Vec<char> = line.chars().collect();
    assert!(chars.len() >= 11, "line too short: {:?}", line);
    assert_eq!(chars[0], '⏰');
    assert_eq!(chars[1], ' ');
    for i in [2usize, 3, 5, 6, 8, 9] {
        assert!(chars[i].is_ascii_digit(), "no digit at {} in {:?}", i, line);
    }
    assert_eq!(chars[4], ':');
    assert_eq!(chars[7], ':');
    assert_eq!(chars[10], ':');
}

#[test]
fn entry_success_captures_stdout() {
    let result = ExecutionResult {
        exit_success: true,
        stdout: String::from("build ok\n"),
        stderr: String::from("ignored"),
    };
    let (log, payload) = record_deployment("project-a", &result);
    let text = log.as_str().to_string();
    assert!(text.contains("build ok"));
    assert!(!text.contains("ignored"));
    let lines: Vec<&str> = text.split_terminator('\n').collect();
    assert_eq!(lines.len(), 4);
    assert!(lines[0].ends_with(": 构建输出"));
    assert!(lines[1].ends_with(": build ok"));
    assert_eq!(lines[2], "");
    assert!(lines[3].ends_with(": 构建结果: 成功"));
    assert_eq!(payload.subject.as_deref(), Some("✅ 应用[project-a]部署成功"));
    assert_eq!(payload.content, text.replace('\n', "<br>"));
}

#[test]
fn entry_failure_captures_stderr() {
    let result = ExecutionResult {
        exit_success: false,
        stdout: String::from("ignored"),
        stderr: String::from("boom"),
    };
    let (log, payload) = record_deployment("project-b", &result);
    let text = log.as_str().to_string();
    assert!(text.contains("boom"));
    assert!(!text.contains("ignored"));
    let lines: Vec<&str> = text.split_terminator('\n').collect();
    assert_eq!(lines.len(), 3);
    assert!(lines[1].ends_with(": boom"));
    assert!(lines[2].ends_with(": 构建结果: 失败"));
    assert_eq!(payload.subject.as_deref(), Some("❌ 应用[project-b]部署失败"));
    assert_eq!(payload.content, text.replace('\n', "<br>"));
}

#[test]
fn every_record_begins_with_timestamp() {
    let result = ExecutionResult {
        exit_success: true,
        stdout: String::from("single line"),
        stderr: String::new(),
    };
    let (log, _) = record_deployment("project-a", &result);
    let text = log.as_str().to_string();
    let lines: Vec<&str> = text.split_terminator('\n').collect();
    assert_eq!(lines.len(), 3);
    for line in lines {
        assert_timestamped(line);
    }
}

#[test]
fn write_log_stamps_current_time() {
    let mut log = DeploymentLog::new();
    let t = log.write_log("hello");
    let chars: Vec<char> = t.chars().collect();
    assert_eq!(chars.len(), 8);
    for i in [0usize, 1, 3, 4, 6, 7] {
        assert!(chars[i].is_ascii_digit());
    }
    assert_eq!(chars[2], ':');
    assert_eq!(chars[5], ':');
    let expected = format!("⏰ {}: hello\n", t);
    assert_eq!(log.as_str(), expected);
}

#[test]
fn push_line_exact_text() {
    let mut log = DeploymentLog::new();
    log.push_line("12:34:56", "构建输出");
    assert_eq!(log.as_str(), "⏰ 12:34:56: 构建输出\n");
    log.push_line("00:00:00", "second");
    assert_eq!(log.as_str(), "⏰ 12:34:56: 构建输出\n⏰ 00:00:00: second\n");
}

#[test]
fn file_block_wraps_buffer() {
    let mut log = DeploymentLog::new();
    log.push_line("08:09:10", "only line");
    let block = log.file_block();
    assert_eq!(block, "\n⏰ 08:09:10: only line\n\n");
    assert!(block.len() > 0);
}

#[test]
fn sequential_blocks_do_not_interleave() {
    let first = ExecutionResult {
        exit_success: true,
        stdout: String::from("one"),
        stderr: String::new(),
    };
    let second = ExecutionResult {
        exit_success: false,
        stdout: String::new(),
        stderr: String::from("two"),
    };
    let (log1, _) = record_deployment("project-b", &first);
    let (log2, _) = record_deployment("project-b", &second);
    let mut file = String::from("earlier content");
    let before = file.len();
    file.push_str(&log1.file_block());
    let middle = file.len();
    file.push_str(&log2.file_block());
    assert!(middle > before);
    assert!(file.len() > middle);
    assert!(file.starts_with("earlier content"));
    assert_eq!(&file[before..middle], log1.file_block().as_str());
    assert_eq!(&file[middle..], log2.file_block().as_str());
}
