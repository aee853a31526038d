//! Lexer tokens, assignment flags, redirection kinds, quoting kinds and
//! compiled-program flags, with the classification macros of `zsh.h`.
use vstd::prelude::*;
use crate::types::c_int;
use crate::consts::{EF_REAL, EF_HEAP, EF_MAP, EF_RUN};

verus! {

/// Tokens produced by zsh's lexer, in the order of `enum lextok`.
#[derive(Clone, Copy, Debug, PartialEq, Eq)]
pub enum lextok {
    NULLTOK,
    SEPER,
    NEWLIN,
    SEMI,
    DSEMI,
    AMPER,
    INPAR,
    OUTPAR,
    DBAR,
    DAMPER,
    OUTANG,
    OUTANGBANG,
    DOUTANG,
    DOUTANGBANG,
    INANG,
    INOUTANG,
    DINANG,
    DINANGDASH,
    INANGAMP,
    OUTANGAMP,
    AMPOUTANG,
    OUTANGAMPBANG,
    DOUTANGAMP,
    DOUTANGAMPBANG,
    TRINANG,
    BAR,
    BARAMP,
    INOUTPAR,
    DINPAR,
    DOUTPAR,
    AMPERBANG,
    SEMIAMP,
    SEMIBAR,
    DOUTBRACK,
    STRING,
    ENVSTRING,
    ENVARRAY,
    ENDINPUT,
    LEXERR,
    BANG,
    DINBRACK,
    INBRACE,
    OUTBRACE,
    CASE,
    COPROC,
    DOLOOP,
    DONE,
    ELIF,
    ELSE,
    ZEND,
    ESAC,
    FI,
    FOR,
    FOREACH,
    FUNC,
    IF,
    NOCORRECT,
    REPEAT,
    SELECT,
    THEN,
    TIME,
    UNTIL,
    WHILE,
    TYPESET,
}

impl lextok {
    /// The value zsh gives this constant in C.
    pub open spec fn code(self) -> c_int {
        match self {
            lextok::NULLTOK => 0,
            lextok::SEPER => 1,
            lextok::NEWLIN => 2,
            lextok::SEMI => 3,
            lextok::DSEMI => 4,
            lextok::AMPER => 5,
            lextok::INPAR => 6,
            lextok::OUTPAR => 7,
            lextok::DBAR => 8,
            lextok::DAMPER => 9,
            lextok::OUTANG => 10,
            lextok::OUTANGBANG => 11,
            lextok::DOUTANG => 12,
            lextok::DOUTANGBANG => 13,
            lextok::INANG => 14,
            lextok::INOUTANG => 15,
            lextok::DINANG => 16,
            lextok::DINANGDASH => 17,
            lextok::INANGAMP => 18,
            lextok::OUTANGAMP => 19,
            lextok::AMPOUTANG => 20,
            lextok::OUTANGAMPBANG => 21,
            lextok::DOUTANGAMP => 22,
            lextok::DOUTANGAMPBANG => 23,
            lextok::TRINANG => 24,
            lextok::BAR => 25,
            lextok::BARAMP => 26,
            lextok::INOUTPAR => 27,
            lextok::DINPAR => 28,
            lextok::DOUTPAR => 29,
            lextok::AMPERBANG => 30,
            lextok::SEMIAMP => 31,
            lextok::SEMIBAR => 32,
            lextok::DOUTBRACK => 33,
            lextok::STRING => 34,
            lextok::ENVSTRING => 35,
            lextok::ENVARRAY => 36,
            lextok::ENDINPUT => 37,
            lextok::LEXERR => 38,
            lextok::BANG => 39,
            lextok::DINBRACK => 40,
            lextok::INBRACE => 41,
            lextok::OUTBRACE => 42,
            lextok::CASE => 43,
            lextok::COPROC => 44,
            lextok::DOLOOP => 45,
            lextok::DONE => 46,
            lextok::ELIF => 47,
            lextok::ELSE => 48,
            lextok::ZEND => 49,
            lextok::ESAC => 50,
            lextok::FI => 51,
            lextok::FOR => 52,
            lextok::FOREACH => 53,
            lextok::FUNC => 54,
            lextok::IF => 55,
            lextok::NOCORRECT => 56,
            lextok::REPEAT => 57,
            lextok::SELECT => 58,
            lextok::THEN => 59,
            lextok::TIME => 60,
            lextok::UNTIL => 61,
            lextok::WHILE => 62,
            lextok::TYPESET => 63,
        }
    }

    /// The C value of the constant.
    #[inline(always)]
    pub fn as_int(self) -> (r: c_int)
        ensures
            r == self.code(),
    {
        match self {
            lextok::NULLTOK => 0,
            lextok::SEPER => 1,
            lextok::NEWLIN => 2,
            lextok::SEMI => 3,
            lextok::DSEMI => 4,
            lextok::AMPER => 5,
            lextok::INPAR => 6,
            lextok::OUTPAR => 7,
            lextok::DBAR => 8,
            lextok::DAMPER => 9,
            lextok::OUTANG => 10,
            lextok::OUTANGBANG => 11,
            lextok::DOUTANG => 12,
            lextok::DOUTANGBANG => 13,
            lextok::INANG => 14,
            lextok::INOUTANG => 15,
            lextok::DINANG => 16,
            lextok::DINANGDASH => 17,
            lextok::INANGAMP => 18,
            lextok::OUTANGAMP => 19,
            lextok::AMPOUTANG => 20,
            lextok::OUTANGAMPBANG => 21,
            lextok::DOUTANGAMP => 22,
            lextok::DOUTANGAMPBANG => 23,
            lextok::TRINANG => 24,
            lextok::BAR => 25,
            lextok::BARAMP => 26,
            lextok::INOUTPAR => 27,
            lextok::DINPAR => 28,
            lextok::DOUTPAR => 29,
            lextok::AMPERBANG => 30,
            lextok::SEMIAMP => 31,
            lextok::SEMIBAR => 32,
            lextok::DOUTBRACK => 33,
            lextok::STRING => 34,
            lextok::ENVSTRING => 35,
            lextok::ENVARRAY => 36,
            lextok::ENDINPUT => 37,
            lextok::LEXERR => 38,
            lextok::BANG => 39,
            lextok::DINBRACK => 40,
            lextok::INBRACE => 41,
            lextok::OUTBRACE => 42,
            lextok::CASE => 43,
            lextok::COPROC => 44,
            lextok::DOLOOP => 45,
            lextok::DONE => 46,
            lextok::ELIF => 47,
            lextok::ELSE => 48,
            lextok::ZEND => 49,
            lextok::ESAC => 50,
            lextok::FI => 51,
            lextok::FOR => 52,
            lextok::FOREACH => 53,
            lextok::FUNC => 54,
            lextok::IF => 55,
            lextok::NOCORRECT => 56,
            lextok::REPEAT => 57,
            lextok::SELECT => 58,
            lextok::THEN => 59,
            lextok::TIME => 60,
            lextok::UNTIL => 61,
            lextok::WHILE => 62,
            lextok::TYPESET => 63,
        }
    }
}

/// Flags of an assignment (`asgment.flags`).
#[derive(Clone, Copy, Debug, PartialEq, Eq)]
pub enum ASG {
    /// The assignment is to an array.
    ASG_ARRAY,
    /// The assignment uses key/value pairs.
    ASG_KEY_VALUE,
}

impl ASG {
    /// The value zsh gives this constant in C.
    pub open spec fn code(self) -> c_int {
        match self {
            ASG::ASG_ARRAY => 1,
            ASG::ASG_KEY_VALUE => 2,
        }
    }

    /// The C value of the flag.
    #[inline(always)]
    pub fn as_int(self) -> (r: c_int)
        ensures
            r == self.code(),
    {
        match self {
            ASG::ASG_ARRAY => 1,
            ASG::ASG_KEY_VALUE => 2,
        }
    }
}

/// Redirection kinds, in the order of zsh's redirection enum.
#[derive(Clone, Copy, Debug, PartialEq, Eq)]
pub enum REDIR {
    REDIR_WRITE,
    REDIR_WRITENOW,
    REDIR_APP,
    REDIR_APPNOW,
    REDIR_ERRWRITE,
    REDIR_ERRWRITENOW,
    REDIR_ERRAPP,
    REDIR_ERRAPPNOW,
    REDIR_READWRITE,
    REDIR_READ,
    REDIR_HEREDOC,
    REDIR_HEREDOCDASH,
    REDIR_HERESTR,
    REDIR_MERGEIN,
    REDIR_MERGEOUT,
    REDIR_CLOSE,
    REDIR_INPIPE,
    REDIR_OUTPIPE,
}

impl REDIR {
    /// The value zsh gives this constant in C.
    pub open spec fn code(self) -> c_int {
        match self {
            REDIR::REDIR_WRITE => 0,
            REDIR::REDIR_WRITENOW => 1,
            REDIR::REDIR_APP => 2,
            REDIR::REDIR_APPNOW => 3,
            REDIR::REDIR_ERRWRITE => 4,
            REDIR::REDIR_ERRWRITENOW => 5,
            REDIR::REDIR_ERRAPP => 6,
            REDIR::REDIR_ERRAPPNOW => 7,
            REDIR::REDIR_READWRITE => 8,
            REDIR::REDIR_READ => 9,
            REDIR::REDIR_HEREDOC => 10,
            REDIR::REDIR_HEREDOCDASH => 11,
            REDIR::REDIR_HERESTR => 12,
            REDIR::REDIR_MERGEIN => 13,
            REDIR::REDIR_MERGEOUT => 14,
            REDIR::REDIR_CLOSE => 15,
            REDIR::REDIR_INPIPE => 16,
            REDIR::REDIR_OUTPIPE => 17,
        }
    }

    /// The C value of the constant.
    #[inline(always)]
    pub fn as_int(self) -> (r: c_int)
        ensures
            r == self.code(),
    {
        match self {
            REDIR::REDIR_WRITE => 0,
            REDIR::REDIR_WRITENOW => 1,
            REDIR::REDIR_APP => 2,
            REDIR::REDIR_APPNOW => 3,
            REDIR::REDIR_ERRWRITE => 4,
            REDIR::REDIR_ERRWRITENOW => 5,
            REDIR::REDIR_ERRAPP => 6,
            REDIR::REDIR_ERRAPPNOW => 7,
            REDIR::REDIR_READWRITE => 8,
            REDIR::REDIR_READ => 9,
            REDIR::REDIR_HEREDOC => 10,
            REDIR::REDIR_HEREDOCDASH => 11,
            REDIR::REDIR_HERESTR => 12,
            REDIR::REDIR_MERGEIN => 13,
            REDIR::REDIR_MERGEOUT => 14,
            REDIR::REDIR_CLOSE => 15,
            REDIR::REDIR_INPIPE => 16,
            REDIR::REDIR_OUTPIPE => 17,
        }
    }

    /// `lo <= self <= hi`, by C value.
    pub open spec fn spec_between(self, lo: REDIR, hi: REDIR) -> bool {
        lo.code() <= self.code() <= hi.code()
    }

    fn is_between(self, ge: Self, le: Self) -> (r: bool)
        ensures
            r == self.spec_between(ge, le),
    {
        let s = self.as_int();
        s >= ge.as_int() && s <= le.as_int()
    }

    /// `>`, `>|`, `>>`, `>>|`, the error forms of these, and `<>`.
    pub open spec fn writes_file(self) -> bool {
        self.spec_between(REDIR::REDIR_WRITE, REDIR::REDIR_READWRITE)
    }

    /// `IS_WRITE_FILE`: the redirection opens a file for writing.
    pub fn IS_WRITE_FILE(self) -> (r: bool)
        ensures
            r == self.writes_file(),
    {
        self.is_between(REDIR::REDIR_WRITE, REDIR::REDIR_READWRITE)
    }

    /// `IS_APPEND_REDIR`: a file-writing redirection whose code has the append bit.
    pub fn IS_APPEND_REDIR(self) -> (r: bool)
        ensures
            r == (self.writes_file() && (self.code() & 2) != 0),
    {
        self.IS_WRITE_FILE() && (self.as_int() & 2 != 0)
    }

    /// `IS_CLOBBER_REDIR`: a file-writing redirection whose code has the clobber bit.
    pub fn IS_CLOBBER_REDIR(self) -> (r: bool)
        ensures
            r == (self.writes_file() && (self.code() & 1) != 0),
    {
        self.IS_WRITE_FILE() && (self.as_int() & 1 != 0)
    }

    /// `IS_ERROR_REDIR`: the redirection also sends standard error.
    pub fn IS_ERROR_REDIR(self) -> (r: bool)
        ensures
            r == self.spec_between(REDIR::REDIR_ERRWRITE, REDIR::REDIR_ERRAPPNOW),
    {
        self.is_between(REDIR::REDIR_ERRWRITE, REDIR::REDIR_ERRAPPNOW)
    }

    /// `IS_READFD`: the redirection reads from its file descriptor.
    pub fn IS_READFD(self) -> (r: bool)
        ensures
            r == (self.spec_between(REDIR::REDIR_READWRITE, REDIR::REDIR_MERGEIN)
                || self == REDIR::REDIR_INPIPE),
    {
        self.is_between(REDIR::REDIR_READWRITE, REDIR::REDIR_MERGEIN)
            || self.as_int() == REDIR::REDIR_INPIPE.as_int()
    }

    /// `IS_REDIROP`: the C value lies between the lexer tokens `OUTANG` and `TRINANG`.
    pub fn IS_REDIROP(self) -> (r: bool)
        ensures
            r == (lextok::OUTANG.code() <= self.code() <= lextok::TRINANG.code()),
    {
        let s = self.as_int();
        s >= lextok::OUTANG.as_int() && s <= lextok::TRINANG.as_int()
    }
}

/// Quoting kinds, in the order of zsh's quote-type enum.
#[derive(Clone, Copy, Debug, PartialEq, Eq)]
pub enum QT {
    QT_NONE,
    QT_BACKSLASH,
    QT_SINGLE,
    QT_DOUBLE,
    QT_DOLLARS,
    QT_BACKTICK,
    QT_SINGLE_OPTIONAL,
    QT_BACKSLASH_PATTERN,
    QT_QUOTEDZPUTS,
    QT_BACKSLASH_SHOWNULL,
}

impl QT {
    /// The value zsh gives this constant in C.
    pub open spec fn code(self) -> c_int {
        match self {
            QT::QT_NONE => 0,
            QT::QT_BACKSLASH => 1,
            QT::QT_SINGLE => 2,
            QT::QT_DOUBLE => 3,
            QT::QT_DOLLARS => 4,
            QT::QT_BACKTICK => 5,
            QT::QT_SINGLE_OPTIONAL => 6,
            QT::QT_BACKSLASH_PATTERN => 7,
            QT::QT_QUOTEDZPUTS => 8,
            QT::QT_BACKSLASH_SHOWNULL => 9,
        }
    }

    /// The C value of the constant.
    #[inline(always)]
    pub fn as_int(self) -> (r: c_int)
        ensures
            r == self.code(),
    {
        match self {
            QT::QT_NONE => 0,
            QT::QT_BACKSLASH => 1,
            QT::QT_SINGLE => 2,
            QT::QT_DOUBLE => 3,
            QT::QT_DOLLARS => 4,
            QT::QT_BACKTICK => 5,
            QT::QT_SINGLE_OPTIONAL => 6,
            QT::QT_BACKSLASH_PATTERN => 7,
            QT::QT_QUOTEDZPUTS => 8,
            QT::QT_BACKSLASH_SHOWNULL => 9,
        }
    }

    /// `QT_IS_SINGLE`: one of the single-quote styles.
    pub fn QT_IS_SINGLE(self) -> (r: bool)
        ensures
            r == (self == QT::QT_SINGLE || self == QT::QT_SINGLE_OPTIONAL),
    {
        let s = self.as_int();
        s == QT::QT_SINGLE.as_int() || s == QT::QT_SINGLE_OPTIONAL.as_int()
    }
}

/// The header of a compiled shell program, as far as these helpers read it.
#[derive(Clone, Copy, Debug)]
pub struct eprog {
    /// `EF_*` flags.
    pub flags: c_int,
    /// Reference count.
    pub nref: c_int,
}

impl eprog {
    /// The program is a real (non-dummy) program.
    pub fn is_real(&self) -> (r: bool)
        ensures
            r == (self.flags & EF_REAL != 0),
    {
        self.flags & EF_REAL != 0
    }

    /// The program lives on the heap.
    pub fn is_heap(&self) -> (r: bool)
        ensures
            r == (self.flags & EF_HEAP != 0),
    {
        self.flags & EF_HEAP != 0
    }

    /// The program is mapped from a file.
    pub fn is_map(&self) -> (r: bool)
        ensures
            r == (self.flags & EF_MAP != 0),
    {
        self.flags & EF_MAP != 0
    }

    /// The program is currently running.
    pub fn is_run(&self) -> (r: bool)
        ensures
            r == (self.flags & EF_RUN != 0),
    {
        self.flags & EF_RUN != 0
    }

    /// The reference count has dropped to zero (or below).
    pub fn should_delete(&self) -> (r: bool)
        ensures
            r == (self.nref <= 0),
    {
        self.nref <= 0
    }
}

} // verus!
