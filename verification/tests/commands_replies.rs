use alfred::commands::admin::{
    toggle_decision, toggled_reply, unknown_command_reply, ToggleDecision, ToggleRefusal,
};
use alfred::commands::animals::{
    dog_reply, dog_reply_from, draw_fox_jumpscare, post_link_at, fox_reply, fox_reply_from, is_fox_jumpscare,
    tuff_reply, tuff_reply_from, unexpected_status_reply,
};
use alfred::commands::cat::{cat_filename, get_file_extension};
use alfred::commands::define::{define_embed, define_embed_from, define_url};
use alfred::commands::delfin::{pick_dolphin, take_line};
use alfred::reply::Rgb;
use alfred::typst_doc::{format_diagnostics, trim_typst_doc, typst_embed, Diagnostic, Severity};

#[test]
fn trim_typst_doc_strips_code_blocks() {
    assert_eq!(trim_typst_doc("  ```\n#set page(width: 1cm)\n```  ".to_string()), "\n#set page(width: 1cm)\n");
    assert_eq!(trim_typst_doc("`$x^2$`".to_string()), "$x^2$");
    assert_eq!(trim_typst_doc("\u{3000}`x`\u{2003}".to_string()), "x");
}

#[test]
fn trim_typst_doc_leaves_other_documents_untouched() {
    assert_eq!(trim_typst_doc("  hello *world* ".to_string()), "  hello *world* ");
    assert_eq!(trim_typst_doc("  `unclosed  ".to_string()), "  `unclosed  ");
    assert_eq!(trim_typst_doc(String::new()), "");
}

#[test]
fn trim_typst_doc_fence_edge_cases() {
    assert_eq!(trim_typst_doc("````".to_string()), "``");
    assert_eq!(trim_typst_doc("```".to_string()), "`");
    assert_eq!(trim_typst_doc("``".to_string()), "");
    assert_eq!(trim_typst_doc("`".to_string()), "`");
    assert_eq!(trim_typst_doc("``````".to_string()), "");
}

#[test]
fn format_diagnostics_one_line_each() {
    assert_eq!(format_diagnostics(&[]), "");
    let ds = vec![
        Diagnostic { severity: Severity::Error, message: "unknown variable".to_string() },
        Diagnostic { severity: Severity::Warning, message: "unused".to_string() },
    ];
    assert_eq!(format_diagnostics(&ds), "\n[error] unknown variable\n[warning] unused");
}

#[test]
fn typst_embed_titles_and_colors() {
    assert!(typst_embed(true, String::new()).is_none());
    assert!(typst_embed(false, String::new()).is_none());
    let w = typst_embed(true, "\n[warning] x".to_string()).unwrap();
    assert_eq!(w.title.as_deref(), Some("Warnings"));
    assert_eq!(w.color, Some(Rgb { red: 249, green: 226, blue: 175 }));
    assert_eq!(w.description.as_deref(), Some("\n[warning] x"));
    let e = typst_embed(false, "\n[error] y".to_string()).unwrap();
    assert_eq!(e.title.as_deref(), Some("Compilation failed"));
    assert_eq!(e.color, Some(Rgb { red: 243, green: 139, blue: 168 }));
}

#[test]
fn file_extension_from_content_type() {
    assert_eq!(get_file_extension(Some("image/jpeg")), Some("jpeg"));
    assert_eq!(get_file_extension(Some("image/gif")), Some("gif"));
    assert_eq!(get_file_extension(Some("text")), None);
    assert_eq!(get_file_extension(Some("a/b/c")), Some("b"));
    assert_eq!(get_file_extension(None), None);
    assert_eq!(cat_filename(Some("png")), "cat.png");
    assert_eq!(cat_filename(None), "cat.jpg");
}

#[test]
fn define_url_appends_the_query() {
    assert_eq!(define_url("yeet"), "https://api.urbandictionary.com/v0/define?term=yeet");
    assert_eq!(define_url(""), "https://api.urbandictionary.com/v0/define?term=");
}

#[test]
fn define_embed_with_a_definition() {
    let e = define_embed("yeet", r#"{"list":[{"definition":"to throw"},{"definition":"other"}]}"#, "bob").ok().unwrap();
    assert_eq!(e.author.as_deref(), Some("Urban Dictionary"));
    assert_eq!(e.title.as_deref(), Some("yeet"));
    assert_eq!(e.description.as_deref(), Some("to throw"));
    assert_eq!(e.color, Some(Rgb { red: 137, green: 180, blue: 250 }));
    assert_eq!(e.footer.as_deref(), Some("Requested by bob"));
}

#[test]
fn define_embed_without_a_definition() {
    let e = define_embed("zzqx", r#"{"list":[]}"#, "amy").ok().unwrap();
    assert_eq!(e.title.as_deref(), Some("No definition found for \"zzqx\""));
    assert_eq!(e.description, None);
    assert_eq!(e.color, Some(Rgb { red: 243, green: 139, blue: 168 }));
    let doc = json::parse(r#"{"list":[{"definition":42}]}"#).unwrap();
    let e = define_embed_from("n", &doc, "amy");
    assert_eq!(e.title.as_deref(), Some("No definition found for \"n\""));
    assert!(define_embed("q", "<html>", "amy").is_err());
}

#[test]
fn dog_replies() {
    assert_eq!(dog_reply(r#"{"message":"https://dog/1.jpg","status":"success"}"#).ok().unwrap(), "https://dog/1.jpg");
    assert_eq!(dog_reply(r#"{"status":"error"}"#).ok().unwrap(), "api broke :(");
    assert!(dog_reply("nope").is_err());
    let doc = json::parse(r#"{"message":5}"#).unwrap();
    assert_eq!(dog_reply_from(&doc), "api broke :(");
}

#[test]
fn fox_replies() {
    assert!(is_fox_jumpscare(67));
    assert!(!is_fox_jumpscare(66));
    assert!(!is_fox_jumpscare(1000));
    let _ = draw_fox_jumpscare();
    assert_eq!(fox_reply(r#"{"image":"https://fox/2.jpg"}"#).ok().unwrap(), "https://fox/2.jpg");
    assert_eq!(fox_reply("[1,2]").ok().unwrap(), "response has unexpected structure");
    let err = fox_reply("{oops").err().unwrap();
    assert_eq!(err.context, "Failed to parse response payload:\n{oops");
    let doc = json::parse(r#"{"image":null}"#).unwrap();
    assert_eq!(fox_reply_from(&doc), "response has unexpected structure");
}

#[test]
fn tuff_replies() {
    let t = tuff_reply(r#"{"data":{"children":[{"data":{"url":"https://i/1.png"}}]}}"#).ok().unwrap();
    assert_eq!(t.notice, None);
    assert_eq!(t.post.as_deref(), Some("https://i/1.png"));
    let t = tuff_reply(r#"{"data":{"children":[{"data":{}}]}}"#).ok().unwrap();
    assert_eq!(t.post.as_deref(), Some("failed to parse post"));
    let t = tuff_reply(r#"{"data":{"children":[]}}"#).ok().unwrap();
    assert_eq!(t.notice, None);
    assert_eq!(t.post, None);
    let t = tuff_reply(r#"{"error":403}"#).ok().unwrap();
    assert_eq!(t.notice.as_deref(), Some("failed to parse reddit response"));
    assert_eq!(t.post, None);
    assert!(tuff_reply("").is_err());
    let doc = json::parse(r#"{"data":{"children":[{"data":{"url":"a"}},{"data":{"url":"b"}}]}}"#).unwrap();
    for _ in 0..20 {
        let p = tuff_reply_from(&doc).post.unwrap();
        assert!(p == "a" || p == "b");
    }
    assert_eq!(
        unexpected_status_reply("403 Forbidden"),
        "unexpected response code: 403 Forbidden\n-# note: if this is a 403, reddit has probably blocked us"
    );
}

#[test]
fn pick_dolphin_draws_a_line() {
    assert!(pick_dolphin(Vec::<String>::new()).is_err());
    assert_eq!(pick_dolphin(vec!["only".to_string()]).ok().unwrap(), "only");
    for _ in 0..20 {
        let d = pick_dolphin(vec![1, 2, 3]).ok().unwrap();
        assert!((1..=3).contains(&d));
    }
}

#[test]
fn toggle_decisions() {
    let commands = vec!["cat".to_string(), "define".to_string()];
    assert_eq!(toggle_decision(None, "cat", &commands), Err(ToggleRefusal::NotInGuild));
    assert_eq!(toggle_decision(Some(5), "toggle_command", &commands), Err(ToggleRefusal::SelfToggle));
    assert_eq!(toggle_decision(None, "toggle_command", &commands), Err(ToggleRefusal::NotInGuild));
    assert_eq!(toggle_decision(Some(5), "cat", &commands), Ok(ToggleDecision::Toggle { guild: 5 }));
    assert_eq!(toggle_decision(Some(5), "dog", &commands), Ok(ToggleDecision::Unknown));
    assert_eq!(ToggleRefusal::NotInGuild.message(), "toggle may only be used in guilds");
    assert_eq!(ToggleRefusal::SelfToggle.message(), "toggling this command is not allowed");
}

#[test]
fn toggle_replies() {
    assert_eq!(toggled_reply("cat", true), "command `cat` has been successfully enabled.");
    assert_eq!(toggled_reply("cat", false), "command `cat` has been successfully disabled.");
    assert_eq!(unknown_command_reply("dog"), "unknown command name: dog");
}

#[test]
fn take_line_and_post_link_at_positions() {
    assert_eq!(take_line(vec!["a", "b", "c"], 1), "b");
    assert_eq!(take_line(vec![7], 0), 7);
    let doc = json::parse(r#"{"data":{"children":[{"data":{"url":"a"}},{"data":{}}]}}"#).unwrap();
    assert_eq!(post_link_at(&doc, 0), "a");
    assert_eq!(post_link_at(&doc, 1), "failed to parse post");
    assert_eq!(post_link_at(&doc, 5), "failed to parse post");
}

#[test]
fn rendered_file_name() {
    assert_eq!(alfred::typst_doc::RENDERED_FILE, "rendered.png");
}
