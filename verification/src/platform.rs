//! The closed set of platforms a download can target, and the classifier
//! that maps an icon-class token (its `icon-` prefix already stripped) to one
//! of them.

use vstd::prelude::*;
use vstd::string::StrSliceExecFns;
use vstd::string::StringExecFns;
use crate::text::str_eq;

verus! {

/// A platform
#[derive(Debug, Copy, Clone, Eq, PartialEq, Structural)]
pub enum Platform {
    /// Windows
    Windows,
    /// Linux
    Linux,
    /// MacOs
    MacOs,
}

impl View for Platform {
    type V = Platform;

    open spec fn view(&self) -> Platform {
        *self
    }
}

impl DeepView for Platform {
    type V = Platform;

    open spec fn deep_view(&self) -> Platform {
        *self
    }
}

/// The platform an icon-class token denotes, if any: `"windows8"`,
/// `"tux"` and `"apple"` are the only recognized tokens.
pub open spec fn spec_classify_platform(token: Seq<char>) -> Option<Platform> {
    if token == "windows8"@ {
        Some(Platform::Windows)
    } else if token == "tux"@ {
        Some(Platform::Linux)
    } else if token == "apple"@ {
        Some(Platform::MacOs)
    } else {
        None
    }
}

/// Classify an icon-class token. An unrecognized token yields `None`, which
/// callers must turn into a hard error for their whole download entry: an
/// unseen platform token means the markup no longer matches expectations.
pub fn classify_platform(token: &str) -> (r: Option<Platform>)
    ensures
        r == spec_classify_platform(token@),
{
    if str_eq(token, "windows8") {
        Some(Platform::Windows)
    } else if str_eq(token, "tux") {
        Some(Platform::Linux)
    } else if str_eq(token, "apple") {
        Some(Platform::MacOs)
    } else {
        None
    }
}

/// The class name starts with the required `icon-` prefix.
pub open spec fn has_icon_prefix(class: Seq<char>) -> bool {
    class.len() >= 5 && class.take(5) == "icon-"@
}

/// The class name with its `icon-` prefix stripped.
pub open spec fn strip_icon_prefix(class: Seq<char>) -> Seq<char>
    recommends
        has_icon_prefix(class),
{
    class.skip(5)
}

/// The token of an icon element: its first class name carrying the `icon-`
/// prefix, with that prefix stripped; `None` when no class carries it.
pub open spec fn spec_icon_token(classes: Seq<Seq<char>>) -> Option<Seq<char>>
    decreases classes.len(),
{
    if classes.len() == 0 {
        None
    } else if has_icon_prefix(classes[0]) {
        Some(strip_icon_prefix(classes[0]))
    } else {
        spec_icon_token(classes.drop_first())
    }
}

fn class_has_icon_prefix(class: &str) -> (r: bool)
    ensures
        r == has_icon_prefix(class@),
{
    proof {
        reveal_strlit("icon-");
    }
    let n = class.unicode_len();
    if n < 5 {
        return false;
    }
    let r = class.get_char(0) == 'i' && class.get_char(1) == 'c' && class.get_char(2) == 'o'
        && class.get_char(3) == 'n' && class.get_char(4) == '-';
    proof {
        if r {
            assert(class@.take(5) =~= "icon-"@);
        } else {
            assert(class@.take(5) != "icon-"@) by {
                if class@.take(5) == "icon-"@ {
                    assert(class@[0] == class@.take(5)[0]);
                    assert(class@[1] == class@.take(5)[1]);
                    assert(class@[2] == class@.take(5)[2]);
                    assert(class@[3] == class@.take(5)[3]);
                    assert(class@[4] == class@.take(5)[4]);
                }
            }
        }
    }
    r
}

/// The icon token of one icon's class list.
pub fn icon_token(classes: &Vec<String>) -> (r: Option<String>)
    ensures
        r.deep_view() == spec_icon_token(classes.deep_view()),
{
    let ghost all: Seq<Seq<char>> = classes.deep_view();
    proof {
        assert(all.skip(0) =~= all);
    }
    let mut i: usize = 0;
    while i < classes.len()
        invariant
            all == classes.deep_view(),
            all.len() == classes@.len(),
            forall|j: int| 0 <= j < all.len() ==> all[j] == classes@[j]@,
            0 <= i <= classes.len(),
            spec_icon_token(all) == spec_icon_token(all.skip(i as int)),
            forall|j: int| 0 <= j < i ==> !has_icon_prefix(all[j]),
        decreases classes.len() - i,
    {
        let class = &classes[i];
        proof {
            assert(all.skip(i as int).len() > 0);
            assert(all.skip(i as int)[0] == class@);
            assert(all.skip(i as int).drop_first() =~= all.skip(i + 1));
        }
        if class_has_icon_prefix(class.as_str()) {
            let token = class.as_str().substring_char(5, class.as_str().unicode_len());
            proof {
                assert(token@ =~= strip_icon_prefix(class@));
            }
            return Some(String::from_str(token));
        }
        i += 1;
    }
    proof {
        assert(all.skip(classes.len() as int) =~= Seq::<Seq<char>>::empty());
    }
    None
}

/// Why a download entry's platform list fails to build.
#[derive(Debug, PartialEq, Eq)]
pub enum PlatformsError {
    /// An icon element carries no `icon-`-prefixed class.
    MissingPlatformString,
    /// An icon's token names no recognized platform; the token is carried.
    InvalidPlatformString(String),
}

/// The view of a platform-list failure.
pub ghost enum PlatformsErrorView {
    MissingPlatformString,
    InvalidPlatformString(Seq<char>),
}

impl View for PlatformsError {
    type V = PlatformsErrorView;

    open spec fn view(&self) -> PlatformsErrorView {
        match self {
            PlatformsError::MissingPlatformString => PlatformsErrorView::MissingPlatformString,
            PlatformsError::InvalidPlatformString(t) => PlatformsErrorView::InvalidPlatformString(
                t@,
            ),
        }
    }
}

/// The platform list of a download entry's icons: each icon's token
/// classified in order, failing fast on the first icon without a token and on
/// the first unrecognized token.
pub open spec fn spec_platform_list(icons: Seq<Seq<Seq<char>>>) -> Result<
    Seq<Platform>,
    PlatformsErrorView,
>
    decreases icons.len(),
{
    if icons.len() == 0 {
        Ok(Seq::empty())
    } else {
        match spec_icon_token(icons[0]) {
            None => Err(PlatformsErrorView::MissingPlatformString),
            Some(token) => match spec_classify_platform(token) {
                None => Err(PlatformsErrorView::InvalidPlatformString(token)),
                Some(p) => match spec_platform_list(icons.drop_first()) {
                    Ok(rest) => Ok(seq![p] + rest),
                    Err(e) => Err(e),
                },
            },
        }
    }
}

/// Build the platform list of a download entry from its icons' class lists.
/// Any single failure aborts the whole list.
pub fn platform_list(icon_classes: &Vec<Vec<String>>) -> (r: Result<Vec<Platform>, PlatformsError>)
    ensures
        (match r {
            Ok(platforms) => spec_platform_list(icon_classes.deep_view()) == Ok::<
                Seq<Platform>,
                PlatformsErrorView,
            >(platforms.deep_view()),
            Err(e) => spec_platform_list(icon_classes.deep_view()) == Err::<
                Seq<Platform>,
                PlatformsErrorView,
            >(e@),
        }),
{
    let ghost all: Seq<Seq<Seq<char>>> = icon_classes.deep_view();
    proof {
        assert(all.skip(0) =~= all);
    }
    let mut platforms: Vec<Platform> = Vec::new();
    let mut i: usize = 0;
    while i < icon_classes.len()
        invariant
            all == icon_classes.deep_view(),
            all.len() == icon_classes@.len(),
            forall|j: int| 0 <= j < all.len() ==> all[j] == icon_classes@[j].deep_view(),
            0 <= i <= icon_classes.len(),
            platforms.deep_view().len() == i,
            spec_platform_list(all) == (match spec_platform_list(all.skip(i as int)) {
                Ok(rest) => Ok::<Seq<Platform>, PlatformsErrorView>(platforms.deep_view() + rest),
                Err(e) => Err::<Seq<Platform>, PlatformsErrorView>(e),
            }),
        decreases icon_classes.len() - i,
    {
        let ghost remaining = all.skip(i as int);
        proof {
            assert(remaining.len() > 0);
            assert(remaining[0] == icon_classes@[i as int].deep_view());
            assert(remaining.drop_first() =~= all.skip(i + 1));
        }
        let token = match icon_token(&icon_classes[i]) {
            Some(token) => token,
            None => {
                return Err(PlatformsError::MissingPlatformString);
            },
        };
        let platform = match classify_platform(token.as_str()) {
            Some(platform) => platform,
            None => {
                return Err(PlatformsError::InvalidPlatformString(token));
            },
        };
        let ghost prefix = platforms.deep_view();
        platforms.push(platform);
        proof {
            assert(platforms.deep_view() =~= prefix.push(platform));
            match spec_platform_list(all.skip(i + 1)) {
                Ok(rest) => {
                    assert(prefix + (seq![platform] + rest) =~= prefix.push(platform) + rest);
                },
                Err(e) => {},
            }
        }
        i += 1;
    }
    proof {
        assert(all.skip(icon_classes.len() as int) =~= Seq::<Seq<Seq<char>>>::empty());
        assert(platforms.deep_view() + Seq::<Platform>::empty() =~= platforms.deep_view());
    }
    Ok(platforms)
}

} // verus!
