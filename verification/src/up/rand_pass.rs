//! The `rand_pass` template helper: `{{rand_pass <local_var_name> <pass_len>}}`
//! generates a fresh secret and binds it as a local variable of the block,
//! where the template reads it back as `@<local_var_name>`.

use vstd::prelude::*;
use vstd::string::*;
use crate::up::renderer::Json;

verus! {

#[verifier::external_type_specification]
#[verifier::external_body]
pub struct ExHelper<'reg, 'rc>(handlebars::Helper<'reg, 'rc>);

#[verifier::external_type_specification]
#[verifier::external_body]
pub struct ExRenderContext<'reg, 'rc>(handlebars::RenderContext<'reg, 'rc>);

#[verifier::external_type_specification]
#[verifier::external_body]
pub struct ExRenderError(handlebars::RenderError);

/// A decimal digit.
pub open spec fn is_digit(c: char) -> bool {
    0x30 <= c as u32 <= 0x39
}

/// A lowercase ASCII letter.
pub open spec fn is_lowercase(c: char) -> bool {
    0x61 <= c as u32 <= 0x7a
}

/// An uppercase ASCII letter.
pub open spec fn is_uppercase(c: char) -> bool {
    0x41 <= c as u32 <= 0x5a
}

/// A printable ASCII character that is neither a letter, a digit nor a space.
pub open spec fn is_symbol(c: char) -> bool {
    let n = c as u32;
    0x21 <= n <= 0x2f || 0x3a <= n <= 0x40 || 0x5b <= n <= 0x60 || 0x7b <= n <= 0x7e
}

/// Some character of `s` satisfies `class`.
pub open spec fn has_some(s: Seq<char>, class: spec_fn(char) -> bool) -> bool {
    exists|i: int| 0 <= i < s.len() && class(#[trigger] s[i])
}

/// What the password generator is asked for.
#[derive(Clone, Copy, Debug)]
pub struct PasswordPolicy {
    /// Number of characters.
    pub length: usize,
    pub numbers: bool,
    pub lowercase_letters: bool,
    pub uppercase_letters: bool,
    pub symbols: bool,
    pub spaces: bool,
    /// Leave out the glyphs that are easily mistaken for one another.
    pub exclude_similar_characters: bool,
    /// Every enabled class must occur, not only may.
    pub strict: bool,
}

impl PasswordPolicy {
    /// How many character classes are enabled.
    pub open spec fn classes(self) -> nat {
        let count = |enabled: bool| if enabled { 1nat } else { 0nat };
        count(self.numbers) + count(self.lowercase_letters) + count(self.uppercase_letters)
            + count(self.symbols) + count(self.spaces)
    }

    /// A password can be generated at all.
    pub open spec fn feasible(self) -> bool {
        &&& self.length != 0
        &&& self.classes() > 0
        &&& self.strict ==> self.length >= self.classes()
    }

    /// `c` belongs to one of the enabled classes.
    pub open spec fn allows(self, c: char) -> bool {
        ||| self.numbers && is_digit(c)
        ||| self.lowercase_letters && is_lowercase(c)
        ||| self.uppercase_letters && is_uppercase(c)
        ||| self.symbols && is_symbol(c)
        ||| self.spaces && c == ' '
    }

    /// `s` is a password that this policy accepts.
    pub open spec fn admits(self, s: Seq<char>) -> bool {
        &&& s.len() == self.length
        &&& forall|i: int| 0 <= i < s.len() ==> self.allows(#[trigger] s[i])
        &&& self.strict ==> {
            &&& self.numbers ==> has_some(s, |c: char| is_digit(c))
            &&& self.lowercase_letters ==> has_some(s, |c: char| is_lowercase(c))
            &&& self.uppercase_letters ==> has_some(s, |c: char| is_uppercase(c))
            &&& self.symbols ==> has_some(s, |c: char| is_symbol(c))
            &&& self.spaces ==> has_some(s, |c: char| c == ' ')
        }
    }

    /// The policy for template secrets: digits, both letter cases and
    /// symbols, each of them required; no spaces; look-alikes kept.
    pub open spec fn secret_spec(length: usize) -> PasswordPolicy {
        PasswordPolicy {
            length,
            numbers: true,
            lowercase_letters: true,
            uppercase_letters: true,
            symbols: true,
            spaces: false,
            exclude_similar_characters: false,
            strict: true,
        }
    }

    /// The policy for template secrets of `length` characters.
    pub fn secret(length: usize) -> (policy: PasswordPolicy)
        ensures
            policy == Self::secret_spec(length),
    {
        PasswordPolicy {
            length,
            numbers: true,
            lowercase_letters: true,
            uppercase_letters: true,
            symbols: true,
            spaces: false,
            exclude_similar_characters: false,
            strict: true,
        }
    }
}

/// `s` has `length` characters, each a digit, a letter or a symbol, and at
/// least one of each of these four classes.
pub open spec fn is_secret(s: Seq<char>, length: nat) -> bool {
    &&& s.len() == length
    &&& forall|i: int|
        0 <= i < s.len() ==> {
            let c = #[trigger] s[i];
            is_digit(c) || is_lowercase(c) || is_uppercase(c) || is_symbol(c)
        }
    &&& has_some(s, |c: char| is_digit(c))
    &&& has_some(s, |c: char| is_lowercase(c))
    &&& has_some(s, |c: char| is_uppercase(c))
    &&& has_some(s, |c: char| is_symbol(c))
}

/// What a helper argument holds, as far as the helper reads it.
#[derive(Debug, PartialEq, Eq)]
pub enum ParamValue {
    /// A JSON string.
    Text(String),
    /// A JSON number that is a non-negative integer below 2^64.
    Unsigned(u64),
    /// Anything else.
    Other,
}

/// Why the helper produced no secret.
#[derive(Debug, PartialEq, Eq)]
pub enum RandPassError {
    /// The first argument, the variable's name, is absent.
    MissingKey,
    /// The first argument is not a string.
    KeyNotText,
    /// The first argument is the empty string.
    EmptyKey,
    /// The second argument, the length, is absent.
    MissingLength,
    /// The second argument is not a non-negative integer.
    LengthNotInteger,
    /// The length is more than a string can hold on this machine.
    LengthOutOfRange,
    /// The generator refused; its reason is carried along.
    Generator(String),
    /// The render context has no open block to bind the variable in.
    NoBlock,
}

/// A generated secret and the local variable it is bound to.
#[derive(Debug, PartialEq, Eq)]
pub struct Secret {
    pub key: String,
    pub password: String,
}

/// The variable name and the length that the two arguments ask for, or the
/// error that they amount to.
pub open spec fn requested(key: Option<ParamValue>, length: Option<ParamValue>) -> Result<
    (Seq<char>, u64),
    RandPassError,
> {
    match key {
        None => Err(RandPassError::MissingKey),
        Some(ParamValue::Text(name)) => if name@.len() == 0 {
            Err(RandPassError::EmptyKey)
        } else {
            match length {
                None => Err(RandPassError::MissingLength),
                Some(ParamValue::Unsigned(n)) => Ok((name@, n)),
                Some(_) => Err(RandPassError::LengthNotInteger),
            }
        },
        Some(_) => Err(RandPassError::KeyNotText),
    }
}

/// Calls `passwords::PasswordGenerator::generate_one` with the fields of
/// `policy`. The generator refuses exactly the infeasible policies: length
/// zero, no class enabled, or strict with fewer characters than enabled
/// classes. Otherwise it draws `length` characters from the enabled classes
/// and, when strict, redraws until each enabled class occurs. A length above
/// `isize::MAX` is left out: the generator reserves the string up front.
#[verifier::external_body]
fn generate_one(policy: &PasswordPolicy) -> (generated: Result<String, String>)
    requires
        policy.length <= isize::MAX,
    ensures
        generated is Err <==> !policy.feasible(),
        generated matches Ok(password) ==> policy.admits(password@),
{
    let generator = passwords::PasswordGenerator {
        length: policy.length,
        numbers: policy.numbers,
        lowercase_letters: policy.lowercase_letters,
        uppercase_letters: policy.uppercase_letters,
        symbols: policy.symbols,
        spaces: policy.spaces,
        exclude_similar_characters: policy.exclude_similar_characters,
        strict: policy.strict,
    };
    generator.generate_one().map_err(|reason| reason.to_string())
}

/// Turns what the generator returned into the helper's result: the password
/// bound to `key`, or the generator's reason as an error.
pub fn seal(key: String, generated: Result<String, String>) -> (sealed: Result<
    Secret,
    RandPassError,
>)
    ensures
        sealed == match generated {
            Ok(password) => Ok::<Secret, RandPassError>(Secret { key, password }),
            Err(reason) => Err(RandPassError::Generator(reason)),
        },
{
    match generated {
        Ok(password) => Ok(Secret { key, password }),
        Err(reason) => Err(RandPassError::Generator(reason)),
    }
}

/// Generates the secret that `{{rand_pass key length}}` asks for.
///
/// The arguments are checked in order: the key must be present, a string and
/// not empty; the length must be present and a non-negative integer. A length
/// below four cannot hold one character of each class and is refused by the
/// generator; every other length that a string can have yields a secret of
/// exactly that many characters with a digit, a lowercase letter, an
/// uppercase letter and a symbol among them.
pub fn rand_pass(key: &Option<ParamValue>, length: &Option<ParamValue>) -> (made: Result<
    Secret,
    RandPassError,
>)
    ensures
        match requested(*key, *length) {
            Err(fault) => made == Err::<Secret, RandPassError>(fault),
            Ok((name, n)) => if n > isize::MAX {
                made == Err::<Secret, RandPassError>(RandPassError::LengthOutOfRange)
            } else if n < 4 {
                made matches Err(RandPassError::Generator(_))
            } else {
                made matches Ok(secret) && secret.key@ == name && is_secret(
                    secret.password@,
                    n as nat,
                )
            },
        },
{
    let name = match key {
        None => { return Err(RandPassError::MissingKey); },
        Some(ParamValue::Text(name)) => name,
        Some(_) => { return Err(RandPassError::KeyNotText); },
    };
    if name.as_str().is_empty() {
        return Err(RandPassError::EmptyKey);
    }
    let n = match length {
        None => { return Err(RandPassError::MissingLength); },
        Some(ParamValue::Unsigned(n)) => *n,
        Some(_) => { return Err(RandPassError::LengthNotInteger); },
    };
    if n > isize::MAX as u64 {
        return Err(RandPassError::LengthOutOfRange);
    }
    let policy = PasswordPolicy::secret(n as usize);
    let generated = generate_one(&policy);
    seal(name.clone(), generated)
}

impl RandPassError {
    /// The text of `message`.
    pub open spec fn text(self) -> Seq<char> {
        match self {
            RandPassError::MissingKey => "Param 0 is required for rand_pass helper."@,
            RandPassError::KeyNotText => "Param 0 must be string."@,
            RandPassError::EmptyKey => "Param 0 can't be empty."@,
            RandPassError::MissingLength => "Param 1 is required for rand_pass helper."@,
            RandPassError::LengthNotInteger => "Param 1 must be integer."@,
            RandPassError::LengthOutOfRange => "Param 1 is too large."@,
            RandPassError::Generator(reason) => "Can't generate password: "@ + reason@ + "."@,
            RandPassError::NoBlock => "No block to bind the password in."@,
        }
    }

    /// What the template author is told.
    pub fn message(&self) -> (text: String)
        ensures
            text@ == self.text(),
    {
        match self {
            RandPassError::MissingKey => String::from_str(
                "Param 0 is required for rand_pass helper.",
            ),
            RandPassError::KeyNotText => String::from_str("Param 0 must be string."),
            RandPassError::EmptyKey => String::from_str("Param 0 can't be empty."),
            RandPassError::MissingLength => String::from_str(
                "Param 1 is required for rand_pass helper.",
            ),
            RandPassError::LengthNotInteger => String::from_str("Param 1 must be integer."),
            RandPassError::LengthOutOfRange => String::from_str("Param 1 is too large."),
            RandPassError::Generator(reason) => {
                let mut text = String::from_str("Can't generate password: ");
                text.append(reason.as_str());
                text.append(".");
                text
            },
            RandPassError::NoBlock => String::from_str("No block to bind the password in."),
        }
    }
}

/// The arguments that a helper was called with, each as the helper reads
/// it: a string, a non-negative integer, or something else.
pub uninterp spec fn helper_params(helper: handlebars::Helper<'static, 'static>) -> Seq<ParamValue>;

/// Whether a render context has a block open.
pub uninterp spec fn has_block(context: handlebars::RenderContext<'static, 'static>) -> bool;

/// The local variables of the innermost block of a render context, by name.
pub uninterp spec fn local_vars(context: handlebars::RenderContext<'static, 'static>) -> Map<
    Seq<char>,
    Json,
>;

/// The argument at `index`, if there are that many.
pub open spec fn param_at(params: Seq<ParamValue>, index: int) -> Option<ParamValue> {
    if 0 <= index < params.len() {
        Some(params[index])
    } else {
        None
    }
}

/// Reads `Helper::param(index)` and its `PathAndJson::value()`: `None` where
/// the helper was called with fewer arguments, else the argument as the
/// helper reads it (`Value::as_str`, then `Value::as_u64`).
#[verifier::external_body]
fn helper_param(helper: &handlebars::Helper<'_, '_>, index: usize) -> (param: Option<ParamValue>)
    ensures
        param == param_at(helper_params(*helper), index as int),
{
    helper.param(index).map(|param| param.value()).map(|value| match (value.as_str(), value.as_u64()) {
        (Some(text), _) => ParamValue::Text(text.to_owned()),
        (None, Some(n)) => ParamValue::Unsigned(n),
        (None, None) => ParamValue::Other,
    })
}

/// Calls `BlockContext::set_local_var` on the innermost block of the render
/// context, with `value` as a JSON string. Returns whether there was a block;
/// without one nothing changes.
#[verifier::external_body]
fn bind_local(
    context: &mut handlebars::RenderContext<'_, '_>,
    name: &str,
    value: String,
) -> (bound: bool)
    ensures
        bound == has_block(*old(context)),
        has_block(*final(context)) == has_block(*old(context)),
        bound ==> local_vars(*final(context)) == local_vars(*old(context)).insert(
            name@,
            Json::Text(value@),
        ),
        !bound ==> *final(context) == *old(context),
{
    match context.block_mut() {
        Some(block) => {
            block.set_local_var(name, handlebars::JsonValue::String(value));
            true
        },
        None => false,
    }
}

/// The text that a render error displays.
pub uninterp spec fn error_text(error: handlebars::RenderError) -> Seq<char>;

/// Calls `RenderError::new` with `message` as the description, which is
/// what the error then displays.
#[verifier::external_body]
fn render_error(message: &str) -> (error: handlebars::RenderError)
    ensures
        error_text(error) == message@,
{
    handlebars::RenderError::new(message)
}

/// The helper has failed with an error that displays `text`, and has left
/// the render context as it was.
pub open spec fn refused(
    done: Result<(), handlebars::RenderError>,
    text: Seq<char>,
    before: handlebars::RenderContext<'static, 'static>,
    after: handlebars::RenderContext<'static, 'static>,
) -> bool {
    &&& done matches Err(error)
    &&& error_text(error) == text
    &&& after == before
}

/// The helper as the template engine calls it: reads its two arguments,
/// generates the secret and binds it in the current block. Nothing is
/// written to the output.
///
/// It succeeds exactly where the arguments ask for a secret of a length that
/// can be had and a block is open: the secret is then the local variable of
/// the key's name. Every failure displays the message of its fault and
/// leaves the render context as it was.
pub fn rand_pass_helper(
    h: &handlebars::Helper<'_, '_>,
    rc: &mut handlebars::RenderContext<'_, '_>,
) -> (done: Result<(), handlebars::RenderError>)
    ensures
        match requested(param_at(helper_params(*h), 0), param_at(helper_params(*h), 1)) {
            Err(fault) => refused(done, fault.text(), *old(rc), *final(rc)),
            Ok((name, n)) => if n > isize::MAX {
                refused(done, RandPassError::LengthOutOfRange.text(), *old(rc), *final(rc))
            } else if n < 4 {
                exists|reason: String|
                    refused(
                        done,
                        #[trigger] RandPassError::Generator(reason).text(),
                        *old(rc),
                        *final(rc),
                    )
            } else if !has_block(*old(rc)) {
                refused(done, RandPassError::NoBlock.text(), *old(rc), *final(rc))
            } else {
                &&& done is Ok
                &&& has_block(*final(rc))
                &&& exists|password: Seq<char>|
                    #[trigger] is_secret(password, n as nat) && local_vars(*final(rc))
                        == local_vars(*old(rc)).insert(name, Json::Text(password))
            },
        },
{
    let key = helper_param(h, 0);
    let length = helper_param(h, 1);
    match rand_pass(&key, &length) {
        Ok(secret) => {
            if bind_local(rc, secret.key.as_str(), secret.password) {
                Ok(())
            } else {
                Err(render_error(RandPassError::NoBlock.message().as_str()))
            }
        },
        Err(fault) => Err(render_error(fault.message().as_str())),
    }
}

} // verus!
