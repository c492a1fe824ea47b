//! Programs that may change what a hook does: where they stand, how they are called, and what
//! they say.
use crate::interfaces::hooks::template::{ContextModel, HookTemplateContext};
use crate::json::{
    bytes_read, copy_object, json_text_of, model_of, no_fields, object, set_field, text, Json,
    JsonModel,
};
use crate::paths::{
    absolutize_path, absolutized, absolute, extension, extension_of, is_absolute, joined_path,
    join_path, lexical_path, normalize_lexical_path, normalized, parts_of, LexicalPath, PathModel,
};
use crate::text::{cat, cat4, decimal_int, decimal_text_signed, kept, lowered, same, texts, to_lower, trim, trim_non_empty, trimmed};
use vstd::prelude::*;
use vstd::utf8::encode_utf8;

verus! {

broadcast use vstd::seq::group_seq_axioms;

/// The program that runs a module of JavaScript: it imports the module, calls what it exports, and
/// writes what comes back.
pub const JS_TRANSFORM_RUNNER: &'static str =
    "\nimport { pathToFileURL } from 'node:url';\n\nconst modulePath = process.argv[1];\nconst exportName = process.argv[2] || '';\nconst context = process.env.RECLAW_HOOK_CONTEXT_JSON ?? '{}';\n\nconst mod = await import(pathToFileURL(modulePath).href);\nconst candidate = (exportName && mod[exportName]) ?? mod.default ?? mod.transform;\nif (typeof candidate !== 'function') {\n  throw new Error('hook transform module must export a function');\n}\n\nconst parsed = JSON.parse(context);\nconst output = await candidate(parsed);\nprocess.stdout.write(JSON.stringify(output === undefined ? null : output));\n";

/// The path of a module that is JavaScript, by the ending of its name.
pub open spec fn is_js(path: Seq<char>) -> bool {
    match extension_of(path) {
        None => false,
        Some(e) => lowered(e) == "js"@ || lowered(e) == "mjs"@ || lowered(e) == "cjs"@,
    }
}

/// Whether a module is JavaScript, by the ending of its name.
pub fn is_js_transform_module(path: &str) -> (r: bool)
    ensures
        r == is_js(path@),
{
    match extension(path) {
        None => false,
        Some(e) => {
            let e = to_lower(e.as_str());
            same(e.as_str(), "js") || same(e.as_str(), "mjs") || same(e.as_str(), "cjs")
        },
    }
}

/// An optional text.
pub open spec fn opt_str(value: Option<&str>) -> Option<Seq<char>> {
    match value {
        Some(s) => Some(s@),
        None => None,
    }
}

/// The directory of the modules.
pub open spec fn modules_dir(dir: Seq<char>, cwd: Option<Seq<char>>) -> PathModel {
    normalized(absolutized(dir, cwd))
}

/// The path that a module's name means.
pub open spec fn path_of_module(dir: Seq<char>, module: Seq<char>, cwd: Option<Seq<char>>) -> PathModel {
    let name = trimmed(module);
    let candidate = if absolute(name) {
        name
    } else {
        joined_path(modules_dir(dir, cwd).text(), name)
    };
    normalized(absolutized(candidate, cwd))
}

/// What is said of a module outside the directory.
pub open spec fn outside(dir: Seq<char>, module: Seq<char>) -> Seq<char> {
    "hook transform module path must be within "@ + dir + ": "@ + module
}

/// The path of a module within the directory of modules, or what is wrong with its name.
pub fn resolve_transform_module_path(dir: &str, module: &str, cwd: Option<&str>) -> (r: Result<
    String,
    String,
>)
    ensures
        if kept(module@) is None {
            r is Err && r->Err_0@ == "hook transform module path is required"@
        } else if !path_of_module(dir@, module@, opt_str(cwd)).within(modules_dir(dir@, opt_str(cwd))) {
            r is Err && r->Err_0@ == outside(
                modules_dir(dir@, opt_str(cwd)).text(),
                trimmed(module@),
            )
        } else {
            r is Ok && r->Ok_0@ == path_of_module(dir@, module@, opt_str(cwd)).text()
        },
{
    let name = match trim_non_empty(module) {
        Some(name) => name,
        None => {
            return Err("hook transform module path is required".to_owned());
        },
    };
    let base = normalize_lexical_path(absolutize_path(dir, cwd).as_str());
    let base_text = base.to_text();
    let candidate = if is_absolute(name.as_str()) {
        name.clone()
    } else {
        join_path(base_text.as_str(), name.as_str())
    };
    let resolved = normalize_lexical_path(absolutize_path(candidate.as_str(), cwd).as_str());
    if !resolved.is_within(&base) {
        return Err(
            cat4(
                "hook transform module path must be within ",
                base_text.as_str(),
                ": ",
                name.as_str(),
            ),
        );
    }
    Ok(resolved.to_text())
}

/// Whether a module really lies within the directory, where links have been followed: what is
/// found of it on disk must lie within what the directory really is. What could not be followed is
/// not held against it.
pub fn check_real_path(
    dir_text: &str,
    module: &str,
    dir_real: Option<&str>,
    found_real: Option<&str>,
) -> (r: Result<(), String>)
    ensures
        match (dir_real, found_real) {
            (Some(d), Some(f)) => if (PathModel {
                absolute: absolute(f@),
                parts: parts_of(f@),
            }).within(PathModel { absolute: absolute(d@), parts: parts_of(d@) }) {
                r is Ok
            } else {
                r is Err && r->Err_0@ == outside(dir_text@, trimmed(module@))
            },
            _ => r is Ok,
        },
{
    if let Some(d) = dir_real {
        if let Some(f) = found_real {
            if !lexical_path(f).is_within(&lexical_path(d)) {
                return Err(
                    cat4(
                        "hook transform module path must be within ",
                        dir_text,
                        ": ",
                        trim(module).as_str(),
                    ),
                );
            }
        }
    }
    Ok(())
}

/// The path and the directories that it lies in, from the path up.
pub open spec fn ancestors_of(path: PathModel) -> Seq<Seq<char>>
    decreases path.parts.len(),
{
    if path.parts.len() == 0 {
        seq![path.text()]
    } else {
        seq![path.text()] + ancestors_of(
            PathModel { absolute: path.absolute, parts: path.parts.drop_last() },
        )
    }
}

/// The path and the directories that it lies in, from the path up.
pub fn ancestors(path: LexicalPath) -> (r: Vec<String>)
    ensures
        texts(r@) == ancestors_of(path@),
{
    let mut current = path;
    let mut out: Vec<String> = Vec::new();
    let ghost whole = ancestors_of(path@);
    assert(texts(out@) + ancestors_of(current@) =~= whole);
    loop
        invariant
            texts(out@) + ancestors_of(current@) == whole,
            whole == ancestors_of(path@),
        decreases current.parts@.len(),
    {
        let ghost so_far = texts(out@);
        let ghost here = current@;
        out.push(current.to_text());
        assert(texts(out@) =~= so_far.push(here.text()));
        assert(here.parts.len() == current.parts@.len());
        if current.parts.len() == 0 {
            assert(texts(out@) =~= so_far + ancestors_of(here));
            return out;
        }
        let _ = current.parts.pop();
        proof {
            assert(texts(current.parts@) =~= here.parts.drop_last());
            assert(texts(out@) + ancestors_of(current@) =~= so_far + ancestors_of(here));
        }
    }
}

/// None of the first `n` is there.
pub open spec fn none_present(n: nat, present: Seq<bool>) -> bool {
    forall|k: int| 0 <= k < n && k < present.len() ==> !#[trigger] present[k]
}

/// The nearest of the path and its directories that is there.
pub fn existing_ancestor(paths: &Vec<String>, present: &Vec<bool>) -> (r: Option<String>)
    ensures
        match r {
            Some(path) => exists|i: int|
                #![trigger present@[i]]
                0 <= i < paths@.len() && i < present@.len() && present@[i] && paths@[i]@ == path@
                    && (forall|k: int| 0 <= k < i ==> !#[trigger] present@[k]),
            None => none_present(paths@.len(), present@) && (forall|k: int|
                0 <= k < paths@.len() && k < present@.len() ==> !#[trigger] present@[k]),
        },
{
    let mut i: usize = 0;
    while i < paths.len() && i < present.len()
        invariant
            i <= paths@.len(),
            i <= present@.len(),
            forall|k: int| 0 <= k < i ==> !#[trigger] present@[k],
        decreases paths@.len() - i,
    {
        if present[i] {
            return Some(paths[i].clone());
        }
        i = i + 1;
    }
    None
}

/// A program with its arguments.
pub struct TransformCommand {
    pub program: String,
    pub args: Vec<String>,
}

/// How a module is called: through the runner where it is JavaScript, and else by itself.
pub fn build_transform_command(path: &str, export: Option<&str>) -> (r: TransformCommand)
    ensures
        if is_js(path@) {
            &&& r.program@ == "node"@
            &&& texts(r.args@) == seq![
                "--input-type=module"@,
                "-e"@,
                JS_TRANSFORM_RUNNER@,
                path@,
                match export {
                    Some(e) => e@,
                    None => ""@,
                },
            ]
        } else {
            &&& r.program@ == path@
            &&& texts(r.args@) == match export {
                Some(e) => seq!["--export"@, e@],
                None => Seq::empty(),
            }
        },
{
    let mut args: Vec<String> = Vec::new();
    if is_js_transform_module(path) {
        args.push("--input-type=module".to_owned());
        args.push("-e".to_owned());
        args.push(JS_TRANSFORM_RUNNER.to_owned());
        args.push(path.to_owned());
        args.push(
            match export {
                Some(e) => e.to_owned(),
                None => "".to_owned(),
            },
        );
        let command = TransformCommand { program: "node".to_owned(), args };
        assert(texts(command.args@) =~= seq![
            "--input-type=module"@,
            "-e"@,
            JS_TRANSFORM_RUNNER@,
            path@,
            match export {
                Some(e) => e@,
                None => ""@,
            },
        ]);
        return command;
    }
    if let Some(e) = export {
        args.push("--export".to_owned());
        args.push(e.to_owned());
        assert(texts(args@) =~= seq!["--export"@, e@]);
    }
    assert(export is None ==> texts(args@) =~= Seq::<Seq<char>>::empty());
    TransformCommand { program: path.to_owned(), args }
}

/// What a module is told of the request.
pub open spec fn context_json(context: ContextModel) -> JsonModel {
    JsonModel::Object(
        no_fields().insert("payload"@, JsonModel::Object(context.payload)).insert(
            "headers"@,
            JsonModel::Object(context.headers),
        ).insert("query"@, JsonModel::Object(context.query)).insert(
            "path"@,
            JsonModel::Text(context.path),
        ).insert("url"@, JsonModel::Text(context.url)),
    )
}

/// What a module is told of the request.
pub fn transform_context(context: &HookTemplateContext) -> (r: String)
    ensures
        r@ == json_text_of(context_json(context@)),
{
    let mut o = object();
    set_field(&mut o, "payload", Json::Object(copy_object(context.payload)));
    set_field(&mut o, "headers", Json::Object(copy_object(context.headers)));
    set_field(&mut o, "query", Json::Object(copy_object(context.query)));
    set_field(&mut o, "path", text(context.path));
    set_field(&mut o, "url", text(context.url));
    Json::Object(o).to_text()
}

/// What came of running a module.
pub enum TransformRun {
    /// It did not end in time.
    TimedOut,
    /// It could not be run.
    NotRun(String),
    /// It ended: whether well, with which code, and what it wrote.
    Ended(bool, Option<i32>, String, String),
}

/// What a module said, or what is wrong with the run of it.
pub open spec fn transform_said(run: TransformRun, path: Seq<char>) -> Result<Seq<char>, Seq<char>> {
    match run {
        TransformRun::TimedOut => Err("hook transform timed out after 5s: "@ + path),
        TransformRun::NotRun(error) => Err("failed to execute hook transform: "@ + error@),
        TransformRun::Ended(ok, code, stdout, stderr) => if !ok {
            match kept(stderr@) {
                Some(words) => Err("hook transform failed for "@ + path + ": "@ + words),
                None => Err(
                    "hook transform failed with status "@ + match code {
                        Some(c) => decimal_int(c as int),
                        None => "unknown"@,
                    } + ": "@ + path,
                ),
            }
        } else {
            match kept(stdout@) {
                Some(words) => Ok(words),
                None => Err("hook transform returned empty output: "@ + path),
            }
        },
    }
}

/// What a module said, read; nothing where it said nothing is to be done.
pub open spec fn transform_value(run: TransformRun, path: Seq<char>) -> Result<
    Option<JsonModel>,
    Seq<char>,
> {
    match transform_said(run, path) {
        Err(message) => Err(message),
        Ok(words) => match bytes_read(encode_utf8(words)) {
            Err(error) => Err("hook transform emitted invalid JSON: "@ + error),
            Ok(value) => Ok(
                if model_of(value) is Null {
                    None
                } else {
                    Some(model_of(value))
                },
            ),
        },
    }
}

/// What a module said, or what is wrong with the run of it.
pub fn transform_output(run: &TransformRun, path: &str) -> (r: Result<String, String>)
    ensures
        match transform_said(*run, path@) {
            Ok(words) => r is Ok && r->Ok_0@ == words,
            Err(message) => r is Err && r->Err_0@ == message,
        },
{
    match run {
        TransformRun::TimedOut => Err(cat("hook transform timed out after 5s: ", path)),
        TransformRun::NotRun(error) => Err(
            cat("failed to execute hook transform: ", error.as_str()),
        ),
        TransformRun::Ended(ok, code, stdout, stderr) => {
            if !*ok {
                return match trim_non_empty(stderr.as_str()) {
                    Some(words) => Err(
                        cat4("hook transform failed for ", path, ": ", words.as_str()),
                    ),
                    None => {
                        let shown = match code {
                            Some(c) => decimal_text_signed(*c as i64),
                            None => "unknown".to_owned(),
                        };
                        Err(
                            cat4(
                                "hook transform failed with status ",
                                shown.as_str(),
                                ": ",
                                path,
                            ),
                        )
                    },
                };
            }
            match trim_non_empty(stdout.as_str()) {
                Some(words) => Ok(words),
                None => Err(cat("hook transform returned empty output: ", path)),
            }
        },
    }
}

/// What a module said, read; nothing where it said nothing is to be done.
pub fn execute_hook_transform(run: &TransformRun, path: &str) -> (r: Result<Option<Json>, String>)
    ensures
        match transform_value(*run, path@) {
            Err(message) => r is Err && r->Err_0@ == message,
            Ok(None) => r is Ok && r->Ok_0 is None,
            Ok(Some(value)) => r is Ok && r->Ok_0 is Some && r->Ok_0->0@ == value,
        },
{
    let words = match transform_output(run, path) {
        Ok(words) => words,
        Err(message) => {
            return Err(message);
        },
    };
    match Json::read(words.as_str().as_bytes()) {
        Err(error) => Err(cat("hook transform emitted invalid JSON: ", error.as_str())),
        Ok(Json::Null) => Ok(None),
        Ok(value) => Ok(Some(value)),
    }
}

/// What is wrong with a module's answer that names no change.
pub fn misshapen_transform(error: &str) -> (r: String)
    ensures
        r@ == "hook transform output shape is invalid: "@ + error@,
{
    cat("hook transform output shape is invalid: ", error)
}

/// A module whose path is accepted lies within the directory of modules, by the text of its path.
pub proof fn law_modules_stay_inside(dir: Seq<char>, module: Seq<char>, cwd: Option<Seq<char>>)
    requires
        path_of_module(dir, module, cwd).within(modules_dir(dir, cwd)),
    ensures
        normalized(path_of_module(dir, module, cwd).text()).within(
            normalized(modules_dir(dir, cwd).text()),
        ),
{
    let name = trimmed(module);
    let candidate = if absolute(name) {
        name
    } else {
        joined_path(modules_dir(dir, cwd).text(), name)
    };
    crate::paths::law_normalize_is_idempotent(absolutized(candidate, cwd));
    crate::paths::law_normalize_is_idempotent(absolutized(dir, cwd));
}

/// A module is JavaScript where its name ends so, in letters of either size.
pub proof fn law_javascript_modules(
    path: &str,
    stem: Seq<char>,
    ending: &str,
    found: Option<String>,
    small: String,
    r: bool,
)
    requires
        call_ensures(is_js_transform_module, (path,), r),
        call_ensures(extension, (path,), found),
        found is Some ==> found->0@ == ending@,
        call_ensures(to_lower, (ending,), small),
    ensures
        r <==> found is Some && (small@ == "js"@ || small@ == "mjs"@ || small@ == "cjs"@),
{
}

/// A JavaScript module is run by `node`, which is told its path and what it exports, and every
/// other module is its own program.
pub proof fn law_commands_of_modules(path: &str, export: Option<&str>, js: bool, r: TransformCommand)
    requires
        call_ensures(build_transform_command, (path, export), r),
        call_ensures(is_js_transform_module, (path,), js),
    ensures
        js ==> r.program@ == "node"@ && r.args@.len() == 5 && r.args@[3]@ == path@,
        js && export is Some ==> r.args@[4]@ == export->0@,
        js && export is None ==> r.args@[4]@.len() == 0,
        !js ==> r.program@ == path@,
        !js && export is None ==> r.args@.len() == 0,
        !js && export is Some ==> r.args@.len() == 2 && r.args@[0]@ == "--export"@ && r.args@[1]@
            == export->0@,
{
    reveal_strlit("");
    let args = texts(r.args@);
    assert(args.len() == r.args@.len());
    if args.len() == 5 {
        assert(args[3] == r.args@[3]@ && args[4] == r.args@[4]@);
    }
    if args.len() == 2 {
        assert(args[0] == r.args@[0]@ && args[1] == r.args@[1]@);
    }
}

/// A module is run where its path says something and lies within the directory of the modules.
pub proof fn law_paths_of_modules(
    dir: &str,
    module: &str,
    cwd: Option<&str>,
    base: LexicalPath,
    path: LexicalPath,
    r: Result<String, String>,
    within: bool,
)
    requires
        call_ensures(resolve_transform_module_path, (dir, module, cwd), r),
        base@ == modules_dir(dir@, opt_str(cwd)),
        path@ == path_of_module(dir@, module@, opt_str(cwd)),
        call_ensures(LexicalPath::is_within, (&path, &base), within),
    ensures
        r is Ok <==> crate::text::not_blank(module@) && within,
        r is Ok ==> r->Ok_0@ == path@.text(),
{
    crate::text::lemma_kept(module@);
}

/// What a module gives is what it wrote, where it ended well and wrote something. Everything else
/// is an error.
pub proof fn law_what_modules_give(run: &TransformRun, path: &str, r: Result<String, String>)
    requires
        call_ensures(transform_output, (run, path), r),
    ensures
        r is Ok <==> *run is Ended && run->Ended_0 && crate::text::not_blank(run->Ended_2@),
        r is Ok ==> r->Ok_0@ == trimmed(run->Ended_2@),
        *run is Ended && !run->Ended_0 && crate::text::not_blank(run->Ended_3@) ==> exists|a: Seq<char>|
            r->Err_0@ == #[trigger] (a + trimmed(run->Ended_3@)),
{
    if *run is Ended {
        crate::text::lemma_kept(run->Ended_2@);
        crate::text::lemma_kept(run->Ended_3@);
        if !run->Ended_0 && kept(run->Ended_3@) is Some {
            let a = "hook transform failed for "@ + path@ + ": "@;
            assert(r->Err_0@ == a + trimmed(run->Ended_3@));
        }
    }
}

/// The nearest of the directories above a path that is there is found: it is there, and none
/// before it is.
pub proof fn law_nearest_directory(paths: &Vec<String>, present: &Vec<bool>, r: Option<String>, k: int)
    requires
        call_ensures(existing_ancestor, (paths, present), r),
        0 <= k < paths@.len() && k < present@.len(),
        present@[k],
        forall|i: int| 0 <= i < k ==> !#[trigger] present@[i],
    ensures
        r is Some && r->0@ == paths@[k]@,
{
    let there = present@;
    assert(there[k]);
}

/// The directories above a path begin with the path itself, and each is the one before it without
/// its last name.
pub proof fn law_directories_above(path: LexicalPath, r: Vec<String>, i: int)
    requires
        call_ensures(ancestors, (path,), r),
    ensures
        r@.len() == path.parts@.len() + 1,
        0 <= i < r@.len() ==> r@[i]@ == (PathModel {
            absolute: path.absolute,
            parts: texts(path.parts@).take(path.parts@.len() - i),
        }).text(),
{
    lemma_ancestors(path@, i);
    let all = texts(r@);
    assert(all.len() == r@.len());
    if 0 <= i < r@.len() {
        assert(all[i] == r@[i]@);
    }
}

proof fn lemma_ancestors(path: PathModel, i: int)
    ensures
        ancestors_of(path).len() == path.parts.len() + 1,
        0 <= i <= path.parts.len() ==> ancestors_of(path)[i] == (PathModel {
            absolute: path.absolute,
            parts: path.parts.take(path.parts.len() - i),
        }).text(),
    decreases path.parts.len(),
{
    if path.parts.len() == 0 {
        assert(path.parts.take(0) =~= path.parts);
    } else {
        let up = PathModel { absolute: path.absolute, parts: path.parts.drop_last() };
        lemma_ancestors(up, i - 1);
        if i == 0 {
            assert(path.parts.take(path.parts.len() as int) =~= path.parts);
        } else if 0 < i <= path.parts.len() {
            assert(up.parts.take(up.parts.len() - (i - 1)) =~= path.parts.take(path.parts.len() - i));
        }
    }
}

} // verus!
