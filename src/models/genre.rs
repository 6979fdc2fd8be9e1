use vstd::prelude::*;

verus! {

pub const UNKNOWN: u64 = 0;
pub const ACTION: u64 = 1;
pub const COMEDY: u64 = 2;
pub const HORROR: u64 = 4;
pub const SPORTS: u64 = 8;
pub const ADVENTURE: u64 = 16;
pub const DRAMA: u64 = 32;
pub const MYSTERY: u64 = 64;
pub const SUPERNATURAL: u64 = 128;
pub const AVANT_GARDE: u64 = 256;
pub const FANTASY: u64 = 512;
pub const ROMANCE: u64 = 1024;
pub const SUSPENSE: u64 = 2048;
pub const AWARD_WINNING: u64 = 4096;
pub const GIRLS_LOVE: u64 = 8192;
pub const SCI_FI: u64 = 16384;
pub const BOYS_LOVE: u64 = 32768;
pub const GOURMET: u64 = 65536;
pub const SLICE_OF_LIFE: u64 = 131072;
pub const ECCHI: u64 = 262144;
pub const EROTICA: u64 = 524288;
pub const HENTAI: u64 = 1048576;

/// Every genre bit the vocabulary knows.
pub const ALL_GENRES: u64 = 0x1f_ffff;

/// A set of genres, one bit per genre; no bit outside `ALL_GENRES` is ever set.
#[derive(PartialEq, Eq, Structural, Clone, Copy, Debug)]
pub struct Genre(u64);

pub open spec fn genre_name(bits: u64) -> Seq<char> {
    if bits == ACTION {
        "Ação"@
    } else if bits == COMEDY {
        "Comédia"@
    } else if bits == HORROR {
        "Terror"@
    } else if bits == SPORTS {
        "Esportes"@
    } else if bits == ADVENTURE {
        "Aventura"@
    } else if bits == DRAMA {
        "Drama"@
    } else if bits == MYSTERY {
        "Misterio"@
    } else if bits == SUPERNATURAL {
        "Sobrenatural"@
    } else if bits == AVANT_GARDE {
        "Vanguarda"@
    } else if bits == FANTASY {
        "Fantasia"@
    } else if bits == ROMANCE {
        "Romance"@
    } else if bits == SUSPENSE {
        "Suspense"@
    } else if bits == AWARD_WINNING {
        "Premiados"@
    } else if bits == GIRLS_LOVE {
        "Amor entre garotas"@
    } else if bits == SCI_FI {
        "Sci-Fi"@
    } else if bits == BOYS_LOVE {
        "Amor entre garotos"@
    } else if bits == GOURMET {
        "Gourmet"@
    } else if bits == SLICE_OF_LIFE {
        "Slice of Life"@
    } else if bits == ECCHI {
        "Ecchi"@
    } else if bits == EROTICA {
        "Erotica"@
    } else if bits == HENTAI {
        "Hentai"@
    } else if bits == UNKNOWN {
        "Desconhecido"@
    } else {
        "Genero Invalido"@
    }
}

impl Genre {
    pub closed spec fn spec_bits(self) -> u64 {
        self.0
    }

    pub closed spec fn wf(self) -> bool {
        self.0 & !ALL_GENRES == 0
    }

    /// Decodes a bit set; any bit outside the vocabulary fails the decode
    /// instead of being masked away.
    pub fn from_bits(bits: u64) -> (r: Option<Genre>)
        ensures
            r is Some <==> bits & !ALL_GENRES == 0,
            r matches Some(g) ==> g.spec_bits() == bits && g.wf(),
    {
        if bits & !ALL_GENRES == 0 {
            Some(Genre(bits))
        } else {
            None
        }
    }

    pub fn bits(&self) -> (r: u64)
        ensures
            r == self.spec_bits(),
    {
        self.0
    }

    /// The empty set: the "unknown" genre.
    pub fn unknown() -> (r: Genre)
        ensures
            r.spec_bits() == UNKNOWN,
            r.wf(),
    {
        assert(0u64 & !0x1f_ffffu64 == 0) by (bit_vector);
        Genre(UNKNOWN)
    }

    /// The display name of a single genre; the empty set reads as unknown and
    /// a combination of several genres as invalid.
    pub fn to_string(&self) -> (r: String)
        ensures
            r@ == genre_name(self.spec_bits()),
    {
        let b = self.0;
        let name = if b == ACTION {
            "Ação"
        } else if b == COMEDY {
            "Comédia"
        } else if b == HORROR {
            "Terror"
        } else if b == SPORTS {
            "Esportes"
        } else if b == ADVENTURE {
            "Aventura"
        } else if b == DRAMA {
            "Drama"
        } else if b == MYSTERY {
            "Misterio"
        } else if b == SUPERNATURAL {
            "Sobrenatural"
        } else if b == AVANT_GARDE {
            "Vanguarda"
        } else if b == FANTASY {
            "Fantasia"
        } else if b == ROMANCE {
            "Romance"
        } else if b == SUSPENSE {
            "Suspense"
        } else if b == AWARD_WINNING {
            "Premiados"
        } else if b == GIRLS_LOVE {
            "Amor entre garotas"
        } else if b == SCI_FI {
            "Sci-Fi"
        } else if b == BOYS_LOVE {
            "Amor entre garotos"
        } else if b == GOURMET {
            "Gourmet"
        } else if b == SLICE_OF_LIFE {
            "Slice of Life"
        } else if b == ECCHI {
            "Ecchi"
        } else if b == EROTICA {
            "Erotica"
        } else if b == HENTAI {
            "Hentai"
        } else if b == UNKNOWN {
            "Desconhecido"
        } else {
            "Genero Invalido"
        };
        String::from_str(name)
    }
}

/// Setting any bit above the vocabulary makes a genre set undecodable,
/// whatever the other bits hold; the empty set decodes.
pub proof fn lemma_genre_unknown_bit_rejected(bits: u64, k: u64)
    requires
        21 <= k < 64,
    ensures
        (bits | (1u64 << k)) & !ALL_GENRES != 0,
        0u64 & !ALL_GENRES == 0,
{
    assert((bits | (1u64 << k)) & !0x1f_ffffu64 != 0 && 0u64 & !0x1f_ffffu64 == 0) by (bit_vector)
        requires
            21 <= k < 64,
    ;
}

} // verus!
