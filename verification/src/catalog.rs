//! The builtin catalog: a fixed set of known public endpoints, available
//! with no configuration file. Each entry carries the static headers and
//! form fields the service expects.

use vstd::prelude::*;

use crate::config::Config;
use crate::config::ConfigView;
use crate::config::configs_view;
use crate::jsonpath::PathStep;
use crate::jsonpath::StepView;

verus! {

/// The catalog as data: what [`use_build_in_config`] returns.
pub open spec fn builtin_catalog() -> Seq<ConfigView> {
    seq![
        ConfigView {
            name: "smms"@,
            url: "https://sm.ms/api/v2/upload"@,
            headers: seq![("Authorization"@, "qk0WHwBx9NOcUWyMgqMo7o6YoMRAGHTX"@)],
            form: seq![],
            form_file: "smfile"@,
            response: seq![StepView::ObjectKey("data"@), StepView::ObjectKey("url"@)],
            message: seq![StepView::ObjectKey("message"@)],
        },
        ConfigView {
            name: "imgkr"@,
            url: "https://imgkr.com/api/v2/files/upload"@,
            headers: seq![
                ("Referer"@, "https://imgkr.com/"@),
                ("Cookie"@, "antn=53af7d0925dc0b65f16e34618352750b"@),
            ],
            form: seq![],
            form_file: "file"@,
            response: seq![StepView::ObjectKey("data"@)],
            message: seq![StepView::ObjectKey("message"@)],
        },
        ConfigView {
            name: "imgtp"@,
            url: "https://imgtp.com/api/upload"@,
            headers: seq![("TOKEN"@, "2a9613644272b0bf2b6eacaeed68e838"@)],
            form: seq![],
            form_file: "image"@,
            response: seq![StepView::ObjectKey("data"@), StepView::ObjectKey("url"@)],
            message: seq![StepView::ObjectKey("msg"@)],
        },
        ConfigView {
            name: "moebox"@,
            url: "https://catbox.moe/user/api.php"@,
            headers: seq![("Referer"@, "https://catbox.moe/"@)],
            form: seq![("reqtype"@, "fileupload"@)],
            form_file: "fileToUpload"@,
            response: seq![],
            message: seq![],
        },
        ConfigView {
            name: "vgy"@,
            url: "https://vgy.me/upload"@,
            headers: seq![],
            form: seq![("userkey"@, "a5dT4k2QVgWxaT7UCM1TgI16OpBv37mk"@)],
            form_file: "file"@,
            response: seq![StepView::ObjectKey("image"@)],
            message: seq![],
        },
        ConfigView {
            name: "yujian"@,
            url: "https://www.hualigs.cn/api/upload?apiType=bilibili&token=562cbd50f59dcc06751de6863ce7adc5"@,
            headers: seq![],
            form: seq![],
            form_file: "image"@,
            response: seq![
                StepView::ObjectKey("data"@),
                StepView::ObjectKey("url"@),
                StepView::ObjectKey("bilibili"@),
            ],
            message: seq![StepView::ObjectKey("msg"@)],
        },
        ConfigView {
            name: "uploadcc"@,
            url: "https://upload.cc/image_upload"@,
            headers: seq![("Referer"@, "https://catbox.moe/"@)],
            form: seq![],
            form_file: "uploaded_file[]"@,
            response: seq![
                StepView::ObjectKey("success_image"@),
                StepView::ArrayIndex(0),
                StepView::ObjectKey("url"@),
            ],
            message: seq![StepView::ObjectKey("code"@)],
        },
    ]
}

/// An object-key path step from a literal.
fn key_step(k: &str) -> (r: PathStep)
    ensures
        r@ == StepView::ObjectKey(k@),
{
    PathStep::ObjectKey(k.to_owned())
}

/// A static key/value pair from two literals.
fn pair(k: &str, v: &str) -> (r: (String, String))
    ensures
        r.0@ == k@,
        r.1@ == v@,
{
    (k.to_owned(), v.to_owned())
}

/// The builtin endpoint definitions, ready to use with no external
/// configuration source.
pub fn use_build_in_config() -> (r: Vec<Config>)
    ensures
        configs_view(r@) == builtin_catalog(),
{
    let mut r: Vec<Config> = Vec::new();

    let mut headers: Vec<(String, String)> = Vec::new();
    headers.push(pair("Authorization", "qk0WHwBx9NOcUWyMgqMo7o6YoMRAGHTX"));
    let mut response: Vec<PathStep> = Vec::new();
    response.push(key_step("data"));
    response.push(key_step("url"));
    let mut message: Vec<PathStep> = Vec::new();
    message.push(key_step("message"));
    let c = Config {
        name: "smms".to_owned(),
        url: "https://sm.ms/api/v2/upload".to_owned(),
        headers,
        form: Vec::new(),
        form_file: "smfile".to_owned(),
        response,
        message,
    };
    proof {
        assert(c@ =~~= builtin_catalog()[0]);
    }
    r.push(c);

    let mut headers: Vec<(String, String)> = Vec::new();
    headers.push(pair("Referer", "https://imgkr.com/"));
    headers.push(pair("Cookie", "antn=53af7d0925dc0b65f16e34618352750b"));
    let mut response: Vec<PathStep> = Vec::new();
    response.push(key_step("data"));
    let mut message: Vec<PathStep> = Vec::new();
    message.push(key_step("message"));
    let c = Config {
        name: "imgkr".to_owned(),
        url: "https://imgkr.com/api/v2/files/upload".to_owned(),
        headers,
        form: Vec::new(),
        form_file: "file".to_owned(),
        response,
        message,
    };
    proof {
        assert(c@ =~~= builtin_catalog()[1]);
    }
    r.push(c);

    let mut headers: Vec<(String, String)> = Vec::new();
    headers.push(pair("TOKEN", "2a9613644272b0bf2b6eacaeed68e838"));
    let mut response: Vec<PathStep> = Vec::new();
    response.push(key_step("data"));
    response.push(key_step("url"));
    let mut message: Vec<PathStep> = Vec::new();
    message.push(key_step("msg"));
    let c = Config {
        name: "imgtp".to_owned(),
        url: "https://imgtp.com/api/upload".to_owned(),
        headers,
        form: Vec::new(),
        form_file: "image".to_owned(),
        response,
        message,
    };
    proof {
        assert(c@ =~~= builtin_catalog()[2]);
    }
    r.push(c);

    let mut headers: Vec<(String, String)> = Vec::new();
    headers.push(pair("Referer", "https://catbox.moe/"));
    let mut form: Vec<(String, String)> = Vec::new();
    form.push(pair("reqtype", "fileupload"));
    let c = Config {
        name: "moebox".to_owned(),
        url: "https://catbox.moe/user/api.php".to_owned(),
        headers,
        form,
        form_file: "fileToUpload".to_owned(),
        response: Vec::new(),
        message: Vec::new(),
    };
    proof {
        assert(c@ =~~= builtin_catalog()[3]);
    }
    r.push(c);

    let mut form: Vec<(String, String)> = Vec::new();
    form.push(pair("userkey", "a5dT4k2QVgWxaT7UCM1TgI16OpBv37mk"));
    let mut response: Vec<PathStep> = Vec::new();
    response.push(key_step("image"));
    let c = Config {
        name: "vgy".to_owned(),
        url: "https://vgy.me/upload".to_owned(),
        headers: Vec::new(),
        form,
        form_file: "file".to_owned(),
        response,
        message: Vec::new(),
    };
    proof {
        assert(c@ =~~= builtin_catalog()[4]);
    }
    r.push(c);

    let mut response: Vec<PathStep> = Vec::new();
    response.push(key_step("data"));
    response.push(key_step("url"));
    response.push(key_step("bilibili"));
    let mut message: Vec<PathStep> = Vec::new();
    message.push(key_step("msg"));
    let c = Config {
        name: "yujian".to_owned(),
        url: "https://www.hualigs.cn/api/upload?apiType=bilibili&token=562cbd50f59dcc06751de6863ce7adc5".to_owned(),
        headers: Vec::new(),
        form: Vec::new(),
        form_file: "image".to_owned(),
        response,
        message,
    };
    proof {
        assert(c@ =~~= builtin_catalog()[5]);
    }
    r.push(c);

    let mut headers: Vec<(String, String)> = Vec::new();
    headers.push(pair("Referer", "https://catbox.moe/"));
    let mut response: Vec<PathStep> = Vec::new();
    response.push(key_step("success_image"));
    response.push(PathStep::ArrayIndex(0));
    response.push(key_step("url"));
    let mut message: Vec<PathStep> = Vec::new();
    message.push(key_step("code"));
    let c = Config {
        name: "uploadcc".to_owned(),
        url: "https://upload.cc/image_upload".to_owned(),
        headers,
        form: Vec::new(),
        form_file: "uploaded_file[]".to_owned(),
        response,
        message,
    };
    proof {
        assert(c@ =~~= builtin_catalog()[6]);
    }
    r.push(c);

    proof {
        assert(configs_view(r@) =~~= builtin_catalog());
    }
    r
}

} // verus!
