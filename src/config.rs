use vstd::prelude::*;
use crate::text::same_text;

verus! {

/// The settings of the service, read from its environment.
pub struct Config {
    pub app_url: String,
    pub service_port: String,
    pub database_url: String,
    pub cors_domains: Vec<String>,
    pub is_development: bool,
    pub aws_region: String,
    pub aws_access_key_id: String,
    pub aws_secret_access_key: String,
    pub aws_s3_bucket_name: String,
    pub aws_cloudfront_kvs_arn: String,
    pub aws_dynamodb_table_name: String,
}

/// `s` without its leading and trailing whitespace.
pub uninterp spec fn trim_of(s: Seq<char>) -> Seq<char>;

/// Relies on str::trim: the string without leading and trailing whitespace; an empty
/// string stays empty.
#[verifier::external_body]
fn trimmed(s: &str) -> (r: String)
    ensures
        r@ == trim_of(s@),
        s@.len() == 0 ==> r@.len() == 0,
{
    s.trim().to_string()
}

/// The pieces of `raw` between commas, in order; `raw` without a comma is one piece.
pub open spec fn comma_pieces(raw: Seq<char>) -> Seq<Seq<char>>
    decreases raw.len(),
{
    if raw.len() == 0 {
        seq![Seq::<char>::empty()]
    } else {
        let p = comma_pieces(raw.drop_last());
        if raw.last() == ',' {
            p.push(Seq::<char>::empty())
        } else {
            p.update(p.len() - 1, p.last().push(raw.last()))
        }
    }
}

/// The trimmed pieces that are not empty, in order.
pub open spec fn list_entries(pieces: Seq<Seq<char>>) -> Seq<Seq<char>>
    decreases pieces.len(),
{
    if pieces.len() == 0 {
        seq![]
    } else {
        let rest = list_entries(pieces.drop_last());
        if trim_of(pieces.last()).len() == 0 {
            rest
        } else {
            rest.push(trim_of(pieces.last()))
        }
    }
}

proof fn lemma_pieces_nonempty(raw: Seq<char>)
    ensures
        comma_pieces(raw).len() >= 1,
    decreases raw.len(),
{
    if raw.len() > 0 {
        lemma_pieces_nonempty(raw.drop_last());
    }
}

/// Reads a comma-separated list: each entry trimmed, empty entries dropped.
pub fn parse_list(raw: &str) -> (r: Vec<String>)
    ensures
        r@.map_values(|s: String| s@) == list_entries(comma_pieces(raw@)),
{
    let n = raw.unicode_len();
    let mut out: Vec<String> = Vec::new();
    let mut piece = String::new();
    let mut i: usize = 0;
    while i < n
        invariant
            0 <= i <= n,
            n == raw@.len(),
            comma_pieces(raw@.subrange(0, i as int)).len() >= 1,
            piece@ == comma_pieces(raw@.subrange(0, i as int)).last(),
            out@.map_values(|s: String| s@) == list_entries(
                comma_pieces(raw@.subrange(0, i as int)).drop_last(),
            ),
        decreases n - i,
    {
        let ghost before = raw@.subrange(0, i as int);
        let ghost after = raw@.subrange(0, i + 1);
        proof {
            assert(after.drop_last() =~= before);
            lemma_pieces_nonempty(before);
        }
        let c = raw.get_char(i);
        if c == ',' {
            let t = trimmed(piece.as_str());
            let ghost out0 = out@;
            if t.unicode_len() > 0 {
                out.push(t);
                assert(out@.map_values(|s: String| s@) =~= out0.map_values(|s: String| s@).push(t@));
            }
            proof {
                let pb = comma_pieces(before);
                assert(comma_pieces(after) == pb.push(Seq::<char>::empty()));
                assert(comma_pieces(after).drop_last() =~= pb);
                assert(pb.drop_last().push(pb.last()) =~= pb);
            }
            piece = String::new();
        } else {
            let mut next = String::from_str(piece.as_str());
            let mut one = String::new();
            one.append(raw.substring_char(i, i + 1));
            next.append(one.as_str());
            proof {
                let pb = comma_pieces(before);
                assert(comma_pieces(after) == pb.update(pb.len() - 1, pb.last().push(c)));
                assert(comma_pieces(after).drop_last() =~= pb.drop_last());
                assert(next@ =~= pb.last().push(c));
            }
            piece = next;
        }
        i = i + 1;
    }
    let t = trimmed(piece.as_str());
    let ghost out0 = out@;
    if t.unicode_len() > 0 {
        out.push(t);
        assert(out@.map_values(|s: String| s@) =~= out0.map_values(|s: String| s@).push(t@));
    }
    proof {
        let ps = comma_pieces(raw@.subrange(0, n as int));
        assert(raw@.subrange(0, n as int) =~= raw@);
        assert(ps.drop_last().push(ps.last()) =~= ps);
    }
    out
}

/// The truth value that a setting spells, `true` or `false`; any other text is none.
pub open spec fn flag_of(raw: Seq<char>) -> Option<bool> {
    if raw == seq!['t', 'r', 'u', 'e'] {
        Some(true)
    } else if raw == seq!['f', 'a', 'l', 's', 'e'] {
        Some(false)
    } else {
        None
    }
}

/// Reads a truth value setting.
pub fn parse_flag(raw: &str) -> (r: Option<bool>)
    ensures
        r == flag_of(raw@),
{
    proof {
        reveal_strlit("true");
        reveal_strlit("false");
    }
    assert("true"@ =~= seq!['t', 'r', 'u', 'e']);
    assert("false"@ =~= seq!['f', 'a', 'l', 's', 'e']);
    if same_text(raw, "true") {
        Some(true)
    } else if same_text(raw, "false") {
        Some(false)
    } else {
        None
    }
}

/// The value of the first variable named `key`, if any.
pub open spec fn lookup(vars: Seq<(String, String)>, key: Seq<char>) -> Option<Seq<char>>
    decreases vars.len(),
{
    if vars.len() == 0 {
        None
    } else if vars[0].0@ == key {
        Some(vars[0].1@)
    } else {
        lookup(vars.drop_first(), key)
    }
}

/// The value of `key` among `vars`, or `default` where it is not set.
pub open spec fn setting(vars: Seq<(String, String)>, key: Seq<char>, default: Seq<char>) -> Seq<char> {
    match lookup(vars, key) {
        Some(v) => v,
        None => default,
    }
}

/// The value of `key` among the variables, or `default` where it is not set.
pub fn env_or(vars: &Vec<(String, String)>, key: &str, default: &str) -> (r: String)
    ensures
        r@ == setting(vars@, key@, default@),
{
    let mut i: usize = 0;
    assert(vars@.subrange(0, vars@.len() as int) =~= vars@);
    while i < vars.len()
        invariant
            0 <= i <= vars.len(),
            lookup(vars@, key@) == lookup(vars@.subrange(i as int, vars@.len() as int), key@),
        decreases vars.len() - i,
    {
        let ghost rest = vars@.subrange(i as int, vars@.len() as int);
        assert(rest[0] == vars@[i as int]);
        assert(rest.drop_first() =~= vars@.subrange(i + 1, vars@.len() as int));
        if same_text(vars[i].0.as_str(), key) {
            return vars[i].1.clone();
        }
        i = i + 1;
    }
    String::from_str(default)
}

impl Config {
    /// The settings found among the variables `vars`, each with its default where it is
    /// not set. `None` where `IS_DEVELOPMENT` is set to neither `true` nor `false`.
    pub fn new(vars: &Vec<(String, String)>) -> (r: Option<Config>)
        ensures
            r is Some <==> flag_of(setting(vars@, "IS_DEVELOPMENT"@, "false"@)) is Some,
            r matches Some(c) ==> {
                &&& c.app_url@ == setting(vars@, "APP_URL"@, "127.0.0.1:8080"@)
                &&& c.service_port@ == setting(vars@, "SERVICE_PORT"@, "5775"@)
                &&& c.database_url@ == setting(vars@, "DATABASE_URL"@, "/data/db.sqlite"@)
                &&& c.cors_domains@.map_values(|s: String| s@) == list_entries(
                    comma_pieces(setting(vars@, "CORS_DOMAINS"@, ""@)),
                )
                &&& Some(c.is_development) == flag_of(setting(vars@, "IS_DEVELOPMENT"@, "false"@))
                &&& c.aws_region@ == setting(vars@, "AWS_REGION"@, "us-east-1"@)
                &&& c.aws_access_key_id@ == setting(vars@, "AWS_ACCESS_KEY_ID"@, ""@)
                &&& c.aws_secret_access_key@ == setting(vars@, "AWS_SECRET_ACCESS_KEY"@, ""@)
                &&& c.aws_s3_bucket_name@ == setting(vars@, "AWS_S3_BUCKET_NAME"@, ""@)
                &&& c.aws_cloudfront_kvs_arn@ == setting(vars@, "AWS_CLOUDFRONT_KVS_ARN"@, ""@)
                &&& c.aws_dynamodb_table_name@ == setting(vars@, "AWS_DYNAMODB_TABLE_NAME"@, ""@)
            },
    {
        let flag = env_or(vars, "IS_DEVELOPMENT", "false");
        let is_development = match parse_flag(flag.as_str()) {
            Some(b) => b,
            None => return None,
        };
        let cors = env_or(vars, "CORS_DOMAINS", "");
        Some(
            Config {
                app_url: env_or(vars, "APP_URL", "127.0.0.1:8080"),
                service_port: env_or(vars, "SERVICE_PORT", "5775"),
                database_url: env_or(vars, "DATABASE_URL", "/data/db.sqlite"),
                cors_domains: parse_list(cors.as_str()),
                is_development,
                aws_region: env_or(vars, "AWS_REGION", "us-east-1"),
                aws_access_key_id: env_or(vars, "AWS_ACCESS_KEY_ID", ""),
                aws_secret_access_key: env_or(vars, "AWS_SECRET_ACCESS_KEY", ""),
                aws_s3_bucket_name: env_or(vars, "AWS_S3_BUCKET_NAME", ""),
                aws_cloudfront_kvs_arn: env_or(vars, "AWS_CLOUDFRONT_KVS_ARN", ""),
                aws_dynamodb_table_name: env_or(vars, "AWS_DYNAMODB_TABLE_NAME", ""),
            },
        )
    }
}

} // verus!
