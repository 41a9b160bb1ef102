//! Feishu (Lark) bot messages: the message builder, the text it renders,
//! the payload it is sent as, and the webhook signature.
use vstd::prelude::*;
use vstd::string::*;
use crate::clock::clock_now;
use crate::crypto::{
    base64_encode, base64_standard, hmac_sha256, hmac_sha256_tag, is_base64_char, law_base64_shape,
};
use crate::text::{clone_opt_text, owned, decimal, decimal_signed, join, push_decimal, push_decimal_i64};
use crate::settings::{lemma_decimal_digits, unsigned_value};
use vstd::utf8::encode_utf8;

verus! {

/// The outcome of checking one URL.
#[derive(Debug)]
pub struct CheckResult {
    pub url: String,
    pub status_code: Option<u16>,
    pub error_message: Option<String>,
    pub response_time_ms: u64,
    pub success: bool,
}

impl Clone for CheckResult {
    fn clone(&self) -> (res: Self)
        ensures
            res == *self,
    {
        CheckResult {
            url: self.url.clone(),
            status_code: self.status_code,
            error_message: clone_opt_text(&self.error_message),
            response_time_ms: self.response_time_ms,
            success: self.success,
        }
    }
}

/// How one URL is to be checked, and how its alerts are worded.
#[derive(Debug)]
pub struct UrlMonitorConfig {
    pub url: String,
    pub expected_status: Option<u16>,
    pub expected_keyword: Option<String>,
    pub timeout_secs: u64,
    pub method: String,
    /// Extra request headers, as (name, value) pairs in the order they are sent.
    pub headers: Vec<(String, String)>,
    pub request_body: Option<String>,
    pub custom_alert_message: Option<String>,
}

/// A URL's configuration, as a value.
pub ghost struct UrlConfigView {
    pub url: Seq<char>,
    pub expected_status: Option<u16>,
    pub expected_keyword: Option<Seq<char>>,
    pub timeout_secs: u64,
    pub method: Seq<char>,
    pub headers: Seq<(Seq<char>, Seq<char>)>,
    pub request_body: Option<Seq<char>>,
    pub custom_alert_message: Option<Seq<char>>,
}

pub open spec fn headers_view(headers: Seq<(String, String)>) -> Seq<(Seq<char>, Seq<char>)> {
    headers.map_values(|h: (String, String)| (h.0@, h.1@))
}

impl View for UrlMonitorConfig {
    type V = UrlConfigView;

    open spec fn view(&self) -> UrlConfigView {
        UrlConfigView {
            url: self.url@,
            expected_status: self.expected_status,
            expected_keyword: opt_text_view(self.expected_keyword),
            timeout_secs: self.timeout_secs,
            method: self.method@,
            headers: headers_view(self.headers@),
            request_body: opt_text_view(self.request_body),
            custom_alert_message: opt_text_view(self.custom_alert_message),
        }
    }
}

impl Clone for UrlMonitorConfig {
    fn clone(&self) -> (res: Self)
        ensures
            res@ == self@,
    {
        let mut headers: Vec<(String, String)> = Vec::new();
        let n = self.headers.len();
        for i in 0..n
            invariant
                n == self.headers@.len(),
                headers@.len() == i,
                forall|j: int|
                    0 <= j < i ==> (#[trigger] headers@[j]).0@ == self.headers@[j].0@
                        && headers@[j].1@ == self.headers@[j].1@,
        {
            headers.push((self.headers[i].0.clone(), self.headers[i].1.clone()));
        }
        assert(headers_view(headers@) =~= headers_view(self.headers@));
        UrlMonitorConfig {
            url: self.url.clone(),
            expected_status: self.expected_status,
            expected_keyword: clone_opt_text(&self.expected_keyword),
            timeout_secs: self.timeout_secs,
            method: self.method.clone(),
            headers,
            request_body: clone_opt_text(&self.request_body),
            custom_alert_message: clone_opt_text(&self.custom_alert_message),
        }
    }
}

/// One piece of message content, as a value.
pub ghost enum BlockView {
    Text(Seq<char>),
    UrlInfo {
        url: Seq<char>,
        status_code: Option<u16>,
        error_message: Option<Seq<char>>,
        response_time_ms: u64,
    },
    CustomMessage(Seq<char>),
    Section(Seq<BlockView>),
}

/// One piece of message content.
pub enum FeishuContentBlock {
    Text(String),
    UrlInfo {
        url: String,
        status_code: Option<u16>,
        error_message: Option<String>,
        response_time_ms: u64,
    },
    CustomMessage(String),
    Section(Vec<FeishuContentBlock>),
}

pub open spec fn opt_text_view(o: Option<String>) -> Option<Seq<char>> {
    match o {
        Some(s) => Some(s@),
        None => None,
    }
}

/// The value of a content block.
pub open spec fn block_view(b: FeishuContentBlock) -> BlockView
    decreases b, 0nat,
{
    match b {
        FeishuContentBlock::Text(t) => BlockView::Text(t@),
        FeishuContentBlock::UrlInfo { url, status_code, error_message, response_time_ms } =>
            BlockView::UrlInfo {
                url: url@,
                status_code,
                error_message: opt_text_view(error_message),
                response_time_ms,
            },
        FeishuContentBlock::CustomMessage(m) => BlockView::CustomMessage(m@),
        FeishuContentBlock::Section(v) => BlockView::Section(blocks_view_upto(v@, v@.len() as int)),
    }
}

/// The values of the first `n` blocks of `s`.
pub open spec fn blocks_view_upto(s: Seq<FeishuContentBlock>, n: int) -> Seq<BlockView>
    decreases s, n,
{
    if n <= 0 || n > s.len() {
        Seq::empty()
    } else {
        blocks_view_upto(s, n - 1).push(block_view(s[n - 1]))
    }
}


/// The values of all the blocks of `s`, in order.
pub open spec fn blocks_view(s: Seq<FeishuContentBlock>) -> Seq<BlockView> {
    blocks_view_upto(s, s.len() as int)
}

proof fn lemma_blocks_view_upto(s: Seq<FeishuContentBlock>, n: int)
    requires
        0 <= n <= s.len(),
    ensures
        blocks_view_upto(s, n).len() == n,
        forall|i: int| 0 <= i < n ==> #[trigger] blocks_view_upto(s, n)[i] == block_view(s[i]),
    decreases n,
{
    if n > 0 {
        lemma_blocks_view_upto(s, n - 1);
    }
}

/// The value of each block is the block value of the element at the same index.
pub proof fn lemma_blocks_view(s: Seq<FeishuContentBlock>)
    ensures
        blocks_view(s).len() == s.len(),
        forall|i: int| 0 <= i < s.len() ==> #[trigger] blocks_view(s)[i] == block_view(s[i]),
{
    lemma_blocks_view_upto(s, s.len() as int);
}

/// Appending a block appends its value.
pub proof fn lemma_blocks_view_push(s: Seq<FeishuContentBlock>, b: FeishuContentBlock)
    ensures
        blocks_view(s.push(b)) == blocks_view(s).push(block_view(b)),
{
    lemma_blocks_view(s);
    lemma_blocks_view(s.push(b));
    assert(blocks_view(s.push(b)) =~= blocks_view(s).push(block_view(b)));
}


/// A Feishu message under construction: a title, content blocks, and users to mention.
pub struct FeishuMessageBuilder {
    pub title: String,
    pub content_blocks: Vec<FeishuContentBlock>,
    pub at_users: Vec<String>,
}

/// The value of a message: title, block values, mentioned user ids.
pub ghost struct MessageView {
    pub title: Seq<char>,
    pub blocks: Seq<BlockView>,
    pub at_users: Seq<Seq<char>>,
}

pub open spec fn texts_view(v: Seq<String>) -> Seq<Seq<char>> {
    v.map_values(|s: String| s@)
}

impl View for FeishuMessageBuilder {
    type V = MessageView;

    open spec fn view(&self) -> MessageView {
        MessageView {
            title: self.title@,
            blocks: blocks_view(self.content_blocks@),
            at_users: texts_view(self.at_users@),
        }
    }
}

impl FeishuMessageBuilder {
    /// A message with the given title, no content and nobody mentioned.
    pub fn new(title: &str) -> (res: Self)
        ensures
            res@ == (MessageView { title: title@, blocks: Seq::empty(), at_users: Seq::empty() }),
    {
        let res = FeishuMessageBuilder {
            title: owned(title),
            content_blocks: Vec::new(),
            at_users: Vec::new(),
        };
        assert(res@.blocks =~= Seq::<BlockView>::empty());
        assert(res@.at_users =~= Seq::<Seq<char>>::empty());
        res
    }

    fn push_block(self, block: FeishuContentBlock) -> (res: Self)
        ensures
            res@ == (MessageView { blocks: self@.blocks.push(block_view(block)), ..self@ }),
    {
        proof {
            lemma_blocks_view_push(self.content_blocks@, block);
        }
        let mut res = self;
        res.content_blocks.push(block);
        res
    }

    /// Appends a line of text.
    pub fn add_text(self, text: &str) -> (res: Self)
        ensures
            res@ == (MessageView { blocks: self@.blocks.push(BlockView::Text(text@)), ..self@ }),
    {
        self.push_block(FeishuContentBlock::Text(owned(text)))
    }

    /// Appends the check outcome of one URL.
    pub fn add_url_info(
        self,
        url: &str,
        status_code: Option<u16>,
        error_message: Option<&str>,
        response_time_ms: u64,
    ) -> (res: Self)
        ensures
            res@ == (MessageView {
                blocks: self@.blocks.push(
                    BlockView::UrlInfo {
                        url: url@,
                        status_code,
                        error_message: match error_message {
                            Some(e) => Some(e@),
                            None => None,
                        },
                        response_time_ms,
                    },
                ),
                ..self@
            }),
    {
        let error_message = match error_message {
            Some(e) => Some(owned(e)),
            None => None,
        };
        self.push_block(
            FeishuContentBlock::UrlInfo { url: owned(url), status_code, error_message, response_time_ms },
        )
    }

    /// Appends a free-form message line.
    pub fn add_custom_message(self, message: &str) -> (res: Self)
        ensures
            res@ == (MessageView {
                blocks: self@.blocks.push(BlockView::CustomMessage(message@)),
                ..self@
            }),
    {
        self.push_block(FeishuContentBlock::CustomMessage(owned(message)))
    }

    /// Appends a section made of the given blocks.
    pub fn add_section(self, blocks: Vec<FeishuContentBlock>) -> (res: Self)
        ensures
            res@ == (MessageView {
                blocks: self@.blocks.push(BlockView::Section(blocks_view(blocks@))),
                ..self@
            }),
    {
        self.push_block(FeishuContentBlock::Section(blocks))
    }

    /// Mentions one more user.
    pub fn add_at_user(self, user_id: &str) -> (res: Self)
        ensures
            res@ == (MessageView { at_users: self@.at_users.push(user_id@), ..self@ }),
    {
        let mut res = self;
        res.at_users.push(owned(user_id));
        assert(texts_view(res.at_users@) =~= texts_view(self.at_users@).push(user_id@));
        res
    }

    /// Mentions the given users, after those already mentioned.
    pub fn add_at_users(self, user_ids: Vec<String>) -> (res: Self)
        ensures
            res@ == (MessageView { at_users: self@.at_users + texts_view(user_ids@), ..self@ }),
    {
        let ghost added = user_ids@;
        let mut user_ids = user_ids;
        let mut res = self;
        res.at_users.append(&mut user_ids);
        assert(texts_view(res.at_users@) =~= texts_view(self.at_users@) + texts_view(added));
        res
    }
}


/// What a block nested two sections deep contributes: its text, if it is text.
pub open spec fn nested_piece(b: BlockView) -> Seq<char> {
    match b {
        BlockView::Text(t) => t,
        BlockView::CustomMessage(m) => m,
        _ => Seq::empty(),
    }
}

pub open spec fn nested_text(s: Seq<BlockView>) -> Seq<char>
    decreases s.len(),
{
    if s.len() == 0 {
        Seq::empty()
    } else {
        nested_text(s.drop_last()) + nested_piece(s.last())
    }
}

/// What a block inside a section contributes: text as is, a nested section's text
/// blocks, and nothing for URL results.
pub open spec fn section_piece(b: BlockView) -> Seq<char> {
    match b {
        BlockView::Text(t) => t,
        BlockView::CustomMessage(m) => m,
        BlockView::Section(sub) => nested_text(sub),
        BlockView::UrlInfo { .. } => Seq::empty(),
    }
}

pub open spec fn section_text(s: Seq<BlockView>) -> Seq<char>
    decreases s.len(),
{
    if s.len() == 0 {
        Seq::empty()
    } else {
        section_text(s.drop_last()) + section_piece(s.last())
    }
}

pub open spec fn newline() -> Seq<char> {
    seq!['\n']
}

/// The lines describing one URL check.
pub open spec fn url_info_text(
    url: Seq<char>,
    status_code: Option<u16>,
    error_message: Option<Seq<char>>,
    response_time_ms: u64,
) -> Seq<char> {
    "\n**"@ + url + "**"@ + match status_code {
        Some(s) => "\n- 状态码: "@ + decimal(s as nat),
        None => Seq::empty(),
    } + match error_message {
        Some(e) => "\n- 错误: "@ + e,
        None => Seq::empty(),
    } + "\n- 响应时间: "@ + decimal(response_time_ms as nat) + "ms"@ + newline()
}

/// The text of one top-level block.
pub open spec fn block_text(b: BlockView) -> Seq<char> {
    match b {
        BlockView::Text(t) => t + newline(),
        BlockView::UrlInfo { url, status_code, error_message, response_time_ms } =>
            url_info_text(url, status_code, error_message, response_time_ms),
        BlockView::CustomMessage(m) => m + newline(),
        BlockView::Section(s) => section_text(s) + newline(),
    }
}

pub open spec fn blocks_text(s: Seq<BlockView>) -> Seq<char>
    decreases s.len(),
{
    if s.len() == 0 {
        Seq::empty()
    } else {
        blocks_text(s.drop_last()) + block_text(s.last())
    }
}

/// The mention tag of one user.
pub open spec fn mention(user_id: Seq<char>) -> Seq<char> {
    "<at id="@ + user_id + "></at>"@
}

/// The mention line: nothing when nobody is mentioned, otherwise a newline and
/// the tags separated by spaces.
pub open spec fn mentions_text(users: Seq<Seq<char>>) -> Seq<char> {
    if users.len() == 0 {
        Seq::empty()
    } else {
        newline() + join(users.map_values(|u: Seq<char>| mention(u)), " "@)
    }
}

/// The full text of a message body.
pub open spec fn content_text(m: MessageView) -> Seq<char> {
    blocks_text(m.blocks) + mentions_text(m.at_users)
}


fn append_nested_piece(content: &mut String, b: &FeishuContentBlock)
    ensures
        final(content)@ == old(content)@ + nested_piece(block_view(*b)),
{
    match b {
        FeishuContentBlock::Text(t) => {
            content.append(t.as_str());
        },
        FeishuContentBlock::CustomMessage(m) => {
            content.append(m.as_str());
        },
        _ => {
            assert(old(content)@ + nested_piece(block_view(*b)) =~= old(content)@);
        },
    }
}

fn append_section_piece(content: &mut String, b: &FeishuContentBlock)
    ensures
        final(content)@ == old(content)@ + section_piece(block_view(*b)),
{
    match b {
        FeishuContentBlock::Text(t) => {
            content.append(t.as_str());
        },
        FeishuContentBlock::CustomMessage(m) => {
            content.append(m.as_str());
        },
        FeishuContentBlock::Section(sub) => {
            let ghost start = content@;
            let ghost sv = blocks_view(sub@);
            proof {
                lemma_blocks_view(sub@);
            }
            let n = sub.len();
            for i in 0..n
                invariant
                    n == sub@.len(),
                    sv == blocks_view(sub@),
                    sv.len() == n,
                    forall|j: int| 0 <= j < n ==> #[trigger] sv[j] == block_view(sub@[j]),
                    content@ == start + nested_text(sv.take(i as int)),
            {
                append_nested_piece(content, &sub[i]);
                assert(sv.take(i + 1).drop_last() =~= sv.take(i as int));
            }
            assert(sv.take(n as int) =~= sv);
        },
        FeishuContentBlock::UrlInfo { .. } => {
            assert(old(content)@ + section_piece(block_view(*b)) =~= old(content)@);
        },
    }
}

fn append_url_info(
    content: &mut String,
    url: &String,
    status_code: Option<u16>,
    error_message: &Option<String>,
    response_time_ms: u64,
)
    ensures
        final(content)@ == old(content)@ + url_info_text(
            url@,
            status_code,
            opt_text_view(*error_message),
            response_time_ms,
        ),
{
    content.append("\n**");
    content.append(url.as_str());
    content.append("**");
    let ghost after_url = content@;
    match status_code {
        Some(s) => {
            content.append("\n- 状态码: ");
            push_decimal(content, s as u64);
        },
        None => {},
    }
    let ghost after_status = content@;
    match error_message {
        Some(e) => {
            content.append("\n- 错误: ");
            content.append(e.as_str());
        },
        None => {},
    }
    let ghost after_error = content@;
    content.append("\n- 响应时间: ");
    push_decimal(content, response_time_ms);
    content.append("ms");
    content.push('\n');
    let ghost status_part = match status_code {
        Some(s) => "\n- 状态码: "@ + decimal(s as nat),
        None => Seq::<char>::empty(),
    };
    let ghost error_part = match opt_text_view(*error_message) {
        Some(e) => "\n- 错误: "@ + e,
        None => Seq::<char>::empty(),
    };
    assert(after_status =~= after_url + status_part);
    assert(after_error =~= after_status + error_part);
    assert(final(content)@ =~= old(content)@ + url_info_text(
        url@,
        status_code,
        opt_text_view(*error_message),
        response_time_ms,
    ));
}

fn append_section_text(content: &mut String, sub: &Vec<FeishuContentBlock>)
    ensures
        final(content)@ == old(content)@ + section_text(blocks_view(sub@)),
{
    let ghost start = content@;
    let ghost sv = blocks_view(sub@);
    proof {
        lemma_blocks_view(sub@);
    }
    let n = sub.len();
    for i in 0..n
        invariant
            n == sub@.len(),
            sv == blocks_view(sub@),
            sv.len() == n,
            forall|j: int| 0 <= j < n ==> #[trigger] sv[j] == block_view(sub@[j]),
            content@ == start + section_text(sv.take(i as int)),
    {
        append_section_piece(content, &sub[i]);
        assert(sv.take(i + 1).drop_last() =~= sv.take(i as int));
    }
    assert(sv.take(n as int) =~= sv);
}

fn append_block_text(content: &mut String, b: &FeishuContentBlock)
    ensures
        final(content)@ == old(content)@ + block_text(block_view(*b)),
{
    match b {
        FeishuContentBlock::Text(t) => {
            content.append(t.as_str());
            content.push('\n');
            assert(final(content)@ =~= old(content)@ + block_text(block_view(*b)));
        },
        FeishuContentBlock::UrlInfo { url, status_code, error_message, response_time_ms } => {
            append_url_info(content, url, *status_code, error_message, *response_time_ms);
        },
        FeishuContentBlock::CustomMessage(m) => {
            content.append(m.as_str());
            content.push('\n');
            assert(final(content)@ =~= old(content)@ + block_text(block_view(*b)));
        },
        FeishuContentBlock::Section(sub) => {
            append_section_text(content, sub);
            content.push('\n');
            assert(final(content)@ =~= old(content)@ + block_text(block_view(*b)));
        },
    }
}

impl FeishuMessageBuilder {
    /// The message body text: each block's text in order, then the mention line.
    pub fn build_content(&self) -> (content: String)
        ensures
            content@ == content_text(self@),
    {
        let mut content = String::new();
        let ghost bv = self@.blocks;
        proof {
            lemma_blocks_view(self.content_blocks@);
        }
        let n = self.content_blocks.len();
        for i in 0..n
            invariant
                n == self.content_blocks@.len(),
                bv == self@.blocks,
                bv.len() == n,
                forall|j: int| 0 <= j < n ==> #[trigger] bv[j] == block_view(self.content_blocks@[j]),
                content@ == blocks_text(bv.take(i as int)),
        {
            append_block_text(&mut content, &self.content_blocks[i]);
            assert(bv.take(i + 1).drop_last() =~= bv.take(i as int));
        }
        assert(bv.take(n as int) =~= bv);
        let ghost body = content@;
        let m = self.at_users.len();
        if m > 0 {
            content.push('\n');
            let ghost tags = self@.at_users.map_values(|u: Seq<char>| mention(u));
            for i in 0..m
                invariant
                    m == self.at_users@.len(),
                    m > 0,
                    tags == self@.at_users.map_values(|u: Seq<char>| mention(u)),
                    tags.len() == m,
                    self@.at_users == texts_view(self.at_users@),
                    content@ == body + newline() + join(tags.take(i as int), " "@),
            {
                if i > 0 {
                    content.append(" ");
                }
                content.append("<at id=");
                content.append(self.at_users[i].as_str());
                content.append("></at>");
                assert(tags[i as int] == mention(self.at_users@[i as int]@));
                assert(tags.take(i + 1).drop_last() =~= tags.take(i as int));
                if i == 0 {
                    assert(tags.take(1) =~= seq![tags[0]]);
                }
            }
            assert(tags.take(m as int) =~= tags);
        }
        content
    }
}


/// Where and how to reach a Feishu bot: its webhook URL and, when signing is
/// enabled, its signing secret.
pub struct FeishuConfig {
    pub webhook_url: String,
    pub secret: Option<String>,
}

impl FeishuConfig {
    pub fn new(webhook_url: String, secret: Option<String>) -> (res: Self)
        ensures
            res.webhook_url == webhook_url,
            res.secret == secret,
    {
        FeishuConfig { webhook_url, secret }
    }
}

/// The HMAC key of a signature: the timestamp text, a newline, the secret.
pub open spec fn signing_key(timestamp: Seq<char>, secret: Seq<char>) -> Seq<char> {
    timestamp + newline() + secret
}

/// The timestamp text of an instant reads back as that instant: an optional `-`, then
/// the decimal digits of its magnitude.
pub proof fn law_timestamp_reads_back(t: i64)
    ensures
        t >= 0 ==> unsigned_value(decimal_signed(t as int)) == Some(t as nat),
        t < 0 ==> decimal_signed(t as int)[0] == '-' && unsigned_value(
            decimal_signed(t as int).skip(1),
        ) == Some((-t) as nat),
{
    if t >= 0 {
        lemma_decimal_digits(t as nat);
    } else {
        lemma_decimal_digits((-t) as nat);
        assert((seq!['-'] + decimal((-t) as nat)).skip(1) =~= decimal((-t) as nat));
    }
}

/// The signature Feishu expects for a timestamp text: the base64 of the HMAC-SHA256
/// of the empty message, keyed with the UTF-8 bytes of `signing_key`.
pub open spec fn feishu_sign(timestamp: Seq<char>, secret: Seq<char>) -> Seq<char> {
    base64_standard(hmac_sha256_tag(encode_utf8(signing_key(timestamp, secret)), Seq::empty()))
}

/// The shape of a signature text: 43 base64 alphabet characters and one `=`, the
/// encoding of a 32-byte tag.
pub open spec fn is_signature_text(s: Seq<char>) -> bool {
    &&& s.len() == 44
    &&& s[43] == '='
    &&& forall|i: int| 0 <= i < 43 ==> is_base64_char(#[trigger] s[i])
}

/// The timestamp text and signature for the Unix time `timestamp` (in seconds).
pub fn signature_at(timestamp: i64, secret: &str) -> (res: (String, String))
    ensures
        res.0@ == decimal_signed(timestamp as int),
        res.1@ == feishu_sign(res.0@, secret@),
        is_signature_text(res.1@),
{
    let mut ts = String::new();
    push_decimal_i64(&mut ts, timestamp);
    let mut key = ts.clone();
    key.push('\n');
    key.append(secret);
    assert(key@ == signing_key(ts@, secret@));
    let empty: Vec<u8> = Vec::new();
    let tag = hmac_sha256(key.as_str().as_bytes(), empty.as_slice());
    assert(empty@ =~= Seq::<u8>::empty());
    let sign = base64_encode(tag.as_slice());
    proof {
        law_base64_shape(tag@);
    }
    (ts, sign)
}

/// The current timestamp text (Unix seconds, read from the local clock) and its signature.
pub fn generate_signature(secret: &str) -> (res: (String, String))
    ensures
        exists|t: i64| t >= 0 && res.0@ == decimal_signed(t as int),
        res.1@ == feishu_sign(res.0@, secret@),
        is_signature_text(res.1@),
{
    let now = clock_now();
    signature_at(now.moment.secs, secret)
}


/// A timestamp text and the signature made for it.
pub struct Signature {
    pub timestamp: String,
    pub sign: String,
}

/// A message as Feishu's webhook takes it: message type `post`, the title, the body
/// text, and the signature when the bot has a secret.
pub struct FeishuPayload {
    pub msg_type: String,
    pub title: String,
    pub text: String,
    pub signature: Option<Signature>,
}

/// What is posted, and where.
pub struct OutgoingMessage {
    pub webhook_url: String,
    pub payload: FeishuPayload,
}

impl FeishuMessageBuilder {
    /// The unsigned payload of this message.
    pub fn to_payload(&self) -> (res: FeishuPayload)
        ensures
            res.msg_type@ == "post"@,
            res.title@ == self.title@,
            res.text@ == content_text(self@),
            res.signature is None,
    {
        FeishuPayload {
            msg_type: owned("post"),
            title: self.title.clone(),
            text: self.build_content(),
            signature: None,
        }
    }
}

/// The message to post for `builder` with bot `config`: signed with the current time
/// when the bot has a secret.
pub fn prepare_message(config: &FeishuConfig, builder: &FeishuMessageBuilder) -> (res: OutgoingMessage)
    ensures
        res.webhook_url@ == config.webhook_url@,
        res.payload.msg_type@ == "post"@,
        res.payload.title@ == builder.title@,
        res.payload.text@ == content_text(builder@),
        config.secret is None ==> res.payload.signature is None,
        config.secret matches Some(secret) ==> res.payload.signature matches Some(sig) && (exists|
            t: i64,
        | t >= 0 && sig.timestamp@ == decimal_signed(t as int)) && sig.sign@ == feishu_sign(
            sig.timestamp@,
            secret@,
        ),
{
    let mut payload = builder.to_payload();
    match &config.secret {
        Some(secret) => {
            let (timestamp, sign) = generate_signature(secret.as_str());
            payload.signature = Some(Signature { timestamp, sign });
        },
        None => {},
    }
    OutgoingMessage { webhook_url: config.webhook_url.clone(), payload }
}

/// What the webhook's reply body says, as far as delivery is concerned.
pub enum FeishuReply {
    /// The body is not JSON.
    NotJson,
    /// The body is JSON without a `code` field.
    NoCode,
    /// The body is JSON with a `code` field: its integer value if it has one, its JSON
    /// text, and the JSON text of the `msg` field if there is one.
    Code { code: Option<i64>, code_text: String, msg_text: Option<String> },
}

pub ghost enum ReplyView {
    NotJson,
    NoCode,
    Code { code: Option<i64>, code_text: Seq<char>, msg_text: Option<Seq<char>> },
}

impl View for FeishuReply {
    type V = ReplyView;

    open spec fn view(&self) -> ReplyView {
        match self {
            FeishuReply::NotJson => ReplyView::NotJson,
            FeishuReply::NoCode => ReplyView::NoCode,
            FeishuReply::Code { code, code_text, msg_text } => ReplyView::Code {
                code: *code,
                code_text: code_text@,
                msg_text: opt_text_view(*msg_text),
            },
        }
    }
}

/// What `inspect_reply` reads from a reply body.
pub uninterp spec fn reply_fields(body: Seq<char>) -> ReplyView;

/// Parses `body` with `serde_json::from_str::<serde_json::Value>`; on success reads
/// `get("code")` (with `as_i64` and its `to_string` JSON text) and `get("msg")` (its
/// `to_string`). Claims only that the result is `reply_fields(body)`, a function of the
/// body alone.
#[verifier::external_body]
pub(crate) fn inspect_reply(body: &str) -> (res: FeishuReply)
    ensures
        res@ == reply_fields(body@),
{
    match serde_json::from_str::<serde_json::Value>(body) {
        Err(_) => FeishuReply::NotJson,
        Ok(value) => match value.get("code") {
            None => FeishuReply::NoCode,
            Some(code) => FeishuReply::Code {
                code: code.as_i64(),
                code_text: code.to_string(),
                msg_text: value.get("msg").map(|m| m.to_string()),
            },
        },
    }
}

/// Whether an HTTP status is a success (200 to 299).
pub open spec fn status_is_success(status: u16) -> bool {
    200 <= status <= 299
}

/// Whether a delivery succeeded: by the reply's `code` being 0 when there is one,
/// otherwise by the HTTP status.
pub open spec fn delivery_succeeded(status: u16, reply: ReplyView) -> bool {
    match reply {
        ReplyView::Code { code, .. } => code == Some(0i64),
        _ => status_is_success(status),
    }
}

/// Why a delivery failed, for the error message.
pub open spec fn delivery_error(status_text: Seq<char>, body: Seq<char>, reply: ReplyView) -> Seq<char> {
    "飞书通知发送失败: "@ + match reply {
        ReplyView::Code { code_text, msg_text, .. } => match msg_text {
            Some(m) => "飞书API错误 - 代码: "@ + code_text + ", 消息: "@ + m,
            None => "飞书API错误 - 代码: "@ + code_text + ", 响应: "@ + body,
        },
        _ => "HTTP "@ + status_text + ": "@ + body,
    }
}

/// The outcome of a delivery, from the HTTP status (its code and its text, such as
/// `200 OK`) and the reply body.
pub fn check_delivery(status: u16, status_text: &str, body: &str) -> (res: Result<(), String>)
    ensures
        res is Ok <==> delivery_succeeded(status, reply_fields(body@)),
        res matches Err(e) ==> e@ == delivery_error(status_text@, body@, reply_fields(body@)),
{
    let reply = inspect_reply(body);
    delivery_outcome(status, status_text, body, &reply)
}

/// The outcome of a delivery, from the HTTP status (its code and its text, such as
/// `200 OK`), the reply body and what the body says.
pub fn delivery_outcome(status: u16, status_text: &str, body: &str, reply: &FeishuReply) -> (res: Result<(), String>)
    ensures
        res is Ok <==> delivery_succeeded(status, reply@),
        res matches Err(e) ==> e@ == delivery_error(status_text@, body@, reply@),
{
    let success = match reply {
        FeishuReply::Code { code, .. } => match code {
            Some(c) => *c == 0,
            None => false,
        },
        _ => 200 <= status && status <= 299,
    };
    if success {
        return Ok(());
    }
    let mut detail = owned("飞书通知发送失败: ");
    match reply {
        FeishuReply::Code { code_text, msg_text, .. } => {
            detail.append("飞书API错误 - 代码: ");
            detail.append(code_text.as_str());
            match msg_text {
                Some(m) => {
                    detail.append(", 消息: ");
                    detail.append(m.as_str());
                },
                None => {
                    detail.append(", 响应: ");
                    detail.append(body);
                },
            }
        },
        _ => {
            detail.append("HTTP ");
            detail.append(status_text);
            detail.append(": ");
            detail.append(body);
        },
    }
    Err(detail)
}

} // verus!
verus! {

/// The text of consecutive blocks is the text of the first ones followed by that of the
/// others.
pub proof fn lemma_blocks_text_concat(a: Seq<BlockView>, b: Seq<BlockView>)
    ensures
        blocks_text(a + b) == blocks_text(a) + blocks_text(b),
    decreases b.len(),
{
    if b.len() == 0 {
        assert(a + b =~= a);
        assert(blocks_text(a) + blocks_text(b) =~= blocks_text(a));
    } else {
        lemma_blocks_text_concat(a, b.drop_last());
        assert((a + b).drop_last() =~= a + b.drop_last());
        assert((a + b).last() == b.last());
    }
}

/// The body of a message whose blocks are `first` then `second` is the body of `first`
/// alone, then that of `second` alone, then the mention line; the title plays no part.
pub proof fn law_content_concat(
    title: Seq<char>,
    other_title: Seq<char>,
    first: Seq<BlockView>,
    second: Seq<BlockView>,
    users: Seq<Seq<char>>,
)
    ensures
        content_text(MessageView { title, blocks: first + second, at_users: users })
            == content_text(MessageView { title: other_title, blocks: first, at_users: Seq::empty() })
            + content_text(MessageView { title: other_title, blocks: second, at_users: Seq::empty() })
            + mentions_text(users),
{
    lemma_blocks_text_concat(first, second);
    let e = Seq::<Seq<char>>::empty();
    assert(mentions_text(e) =~= Seq::<char>::empty());
    assert(blocks_text(first) + Seq::<char>::empty() =~= blocks_text(first));
    assert(blocks_text(second) + Seq::<char>::empty() =~= blocks_text(second));
}

} // verus!
