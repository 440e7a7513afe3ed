use vstd::prelude::*;

verus! {

/// The details trail of a rendered message: every frame of `fs`, newest
/// first, each on a line of its own indented by two spaces.
pub open spec fn details(fs: Seq<Seq<char>>) -> Seq<char>
    decreases fs.len(),
{
    if fs.len() == 0 {
        Seq::empty()
    } else {
        "  "@ + fs.last() + "\n"@ + details(fs.drop_last())
    }
}

/// The text shown for a reportable chain: the newest frame as the headline,
/// then, when there are older frames, a `Details:` section listing them from
/// the newest to the root cause.
pub open spec fn render(fs: Seq<Seq<char>>) -> Seq<char> {
    if fs.len() == 0 {
        Seq::empty()
    } else if fs.len() == 1 {
        fs[0]
    } else {
        fs.last() + "\nDetails:\n"@ + details(fs.drop_last())
    }
}

/// The text shown for an error with the given frames; the ignored sentinel
/// has a fixed placeholder.
pub open spec fn message_of(frames: Option<Seq<Seq<char>>>) -> Seq<char> {
    match frames {
        None => "Ignored error"@,
        Some(fs) => render(fs),
    }
}

/// The outcome of an operation that fails with an [`Error`].
pub type Result<T> = std::result::Result<T, Error>;

/// A failure on its way up the call stack.
///
/// `None` is the ignored sentinel: it carries no message and is never shown.
/// `Some(frames)` is a reportable failure; `frames[0]` is the root cause and
/// each later frame is context attached by an enclosing layer.
#[derive(Debug)]
pub struct Error {
    frames: Option<Vec<String>>,
}

impl View for Error {
    type V = Option<Seq<Seq<char>>>;

    closed spec fn view(&self) -> Option<Seq<Seq<char>>> {
        match self.frames {
            None => None,
            Some(v) => Some(v@.map_values(|s: String| s@)),
        }
    }
}

impl Error {
    /// A reportable error never has an empty frame chain.
    #[verifier::type_invariant]
    spec fn frames_nonempty(self) -> bool {
        match self.frames {
            None => true,
            Some(v) => v.len() > 0,
        }
    }

    /// A reportable error with the single frame `text`.
    fn single(text: String) -> (r: Self)
        ensures
            r@ == Some(seq![text@]),
    {
        let mut frames: Vec<String> = Vec::new();
        frames.push(text);
        let r = Error { frames: Some(frames) };
        assert(r@->0 =~= seq![text@]);
        r
    }

    /// A grammar error: its only frame is `Grammar error: ` followed by `message`.
    pub fn grammar(message: &str) -> (r: Self)
        ensures
            r@ == Some(seq!["Grammar error: "@ + message@]),
    {
        let mut text = String::from_str("Grammar error: ");
        text.append(message);
        Self::single(text)
    }

    /// A regex error: its only frame is `Regex error: ` followed by `message`.
    pub fn regex(message: String) -> (r: Self)
        ensures
            r@ == Some(seq!["Regex error: "@ + message@]),
    {
        let mut text = String::from_str("Regex error: ");
        text.append(message.as_str());
        Self::single(text)
    }

    /// An undefined-symbol error: its only frame is ``Undefined symbol `name` ``.
    pub fn undefined_symbol(name: &str) -> (r: Self)
        ensures
            r@ == Some(seq!["Undefined symbol `"@ + name@ + "`"@]),
    {
        let mut text = String::from_str("Undefined symbol `");
        text.append(name);
        text.append("`");
        Self::single(text)
    }

    /// A reportable error whose only frame is `message`.
    pub fn new(message: String) -> (r: Self)
        ensures
            r@ == Some(seq![message@]),
    {
        Self::single(message)
    }

    /// The ignored sentinel.
    pub fn new_ignored() -> (r: Self)
        ensures
            r@ is None,
    {
        Error { frames: None }
    }

    /// Whether this is the ignored sentinel.
    pub fn is_ignored(&self) -> (r: bool)
        ensures
            r == (self@ is None),
    {
        self.frames.is_none()
    }

    /// The process exit status for a run that ended with this error: `1` for
    /// a reportable failure, `0` for the ignored sentinel, whose run stopped
    /// only because nobody was left to read its output.
    pub fn exit_status(&self) -> (r: i32)
        ensures
            r == (if self@ is None { 0i32 } else { 1i32 }),
    {
        if self.is_ignored() {
            0
        } else {
            1
        }
    }

    /// A failed result carrying a reportable error whose only frame is `message`.
    pub fn err<T>(message: String) -> (r: Result<T>)
        ensures
            r is Err,
            r->Err_0@ == Some(seq![message@]),
    {
        Err(Self::new(message))
    }

    /// Attaches one more context frame, the text that `message_fn` produces.
    /// `message_fn` runs only here, on the failure path.
    ///
    /// The ignored sentinel takes no context: wrapping it is a logic error,
    /// and the call aborts.
    pub fn wrap<F: FnOnce() -> String>(self, message_fn: F) -> (r: Self)
        requires
            self@ is Some,
            message_fn.requires(()),
        ensures
            r@ is Some,
            exists|m: String| message_fn.ensures((), m) && r@->0 == self@->0.push(m@),
    {
        let mut frames = self.frames.expect("an ignored error cannot be wrapped");
        let m = message_fn();
        frames.push(m);
        let r = Error { frames: Some(frames) };
        assert(r@->0 =~= self@->0.push(m@));
        r
    }

    /// The text to show for this error: the newest frame, followed for a
    /// longer chain by `Details:` and every older frame from the newest to the
    /// root cause, one per line with a two-space indent.
    pub fn message(&self) -> (r: String)
        ensures
            r@ == message_of(self@),
    {
        proof {
            use_type_invariant(self);
        }
        match &self.frames {
            None => String::from_str("Ignored error"),
            Some(frames) => {
                let ghost fs = frames@.map_values(|s: String| s@);
                let n = frames.len();
                let mut result = frames[n - 1].clone();
                if n > 1 {
                    result.append("\nDetails:\n");
                    let mut i: usize = n - 1;
                    while i > 0
                        invariant
                            0 <= i < n,
                            n == frames.len(),
                            fs == frames@.map_values(|s: String| s@),
                            result@ + details(fs.take(i as int)) == fs.last() + "\nDetails:\n"@
                                + details(fs.take(n - 1)),
                        decreases i,
                    {
                        let ghost prev = result@;
                        result.append("  ");
                        result.append(frames[i - 1].as_str());
                        result.append("\n");
                        proof {
                            let t = fs.take(i as int);
                            assert(t.drop_last() =~= fs.take(i - 1));
                            assert(t.last() == frames@[i - 1]@);
                            assert(details(t) == "  "@ + frames@[i - 1]@ + "\n"@ + details(
                                fs.take(i - 1),
                            ));
                            assert(result@ =~= prev + "  "@ + frames@[i - 1]@ + "\n"@);
                            assert(result@ + details(fs.take(i - 1)) =~= prev + details(t));
                        }
                        i -= 1;
                    }
                    proof {
                        assert(fs.take(0) =~= Seq::<Seq<char>>::empty());
                        assert(fs.take(n - 1) =~= fs.drop_last());
                        assert(result@ =~= result@ + details(fs.take(0)));
                    }
                }
                result
            }
        }
    }
}

} // verus!
