//! The gamma codec: bit-exact conversion between 8-bit gamma-encoded
//! channel bytes and linear light intensities.
//!
//! The forward table gives, for every encoded byte, the bit pattern of the
//! binary64 linear intensity it stands for; the midpoint table holds the
//! arithmetic midpoints of neighbouring forward entries.  Encoding a
//! linear value is a monotonic threshold classification against the
//! midpoint table, not the evaluation of a closed-form gamma curve, and
//! the table values are a hard, bit-exact contract.  All entries are
//! non-negative finite binary64 values no greater than 1.0, so the IEEE
//! comparison used by the classification coincides with the unsigned
//! order of the bit patterns, and the whole codec is integer code.

use vstd::prelude::*;
use crate::fbits::{lt_bits, f64_lt, POS_ONE};

verus! {

/// Bit pattern of the linear intensity that the encoded byte `i` stands
/// for.  Entry 0 is 0.0 and entry 255 is 1.0; the entries increase
/// strictly.
pub open spec fn linear_bits(i: int) -> u64 {
    if i < 128 {
        if i < 64 {
            if i < 32 {
                if i < 16 {
                    if i < 8 {
                        if i < 4 {
                            if i < 2 {
                                if i < 1 {
                                    0x0000000000000000u64
                                } else {
                                    0x3F33E45677C176F7u64
                                }
                            } else {
                                if i < 3 {
                                    0x3F43E45677C176F7u64
                                } else {
                                    0x3F4DD681B3A23272u64
                                }
                            }
                        } else {
                            if i < 6 {
                                if i < 5 {
                                    0x3F53E45677C176F7u64
                                } else {
                                    0x3F58DD6C15B1D4B4u64
                                }
                            } else {
                                if i < 7 {
                                    0x3F5DD681B3A23272u64
                                } else {
                                    0x3F6167CBA8C94818u64
                                }
                            }
                        }
                    } else {
                        if i < 12 {
                            if i < 10 {
                                if i < 9 {
                                    0x3F63E45677C176F7u64
                                } else {
                                    0x3F6660E146B9A5D5u64
                                }
                            } else {
                                if i < 11 {
                                    0x3F68DD6C15B1D4B4u64
                                } else {
                                    0x3F6B6A31B5259C99u64
                                }
                            }
                        } else {
                            if i < 14 {
                                if i < 13 {
                                    0x3F6E1E31D70C99DDu64
                                } else {
                                    0x3F707C38BF8583A9u64
                                }
                            } else {
                                if i < 15 {
                                    0x3F71FCC2BEED6421u64
                                } else {
                                    0x3F7390FFAF95E279u64
                                }
                            }
                        }
                    }
                } else {
                    if i < 24 {
                        if i < 20 {
                            if i < 18 {
                                if i < 17 {
                                    0x3F753936CC7BC928u64
                                } else {
                                    0x3F76F5ADDB50C915u64
                                }
                            } else {
                                if i < 19 {
                                    0x3F78C6A94031B561u64
                                } else {
                                    0x3F7AAC6C0FB97351u64
                                }
                            }
                        } else {
                            if i < 22 {
                                if i < 21 {
                                    0x3F7CA7381F9F602Bu64
                                } else {
                                    0x3F7EB74E160978D0u64
                                }
                            } else {
                                if i < 23 {
                                    0x3F806E76BBDA92B8u64
                                } else {
                                    0x3F818C2A5A8A8044u64
                                }
                            }
                        }
                    } else {
                        if i < 28 {
                            if i < 26 {
                                if i < 25 {
                                    0x3F82B4E09B3F0AE3u64
                                } else {
                                    0x3F83E8B7B3BDE965u64
                                }
                            } else {
                                if i < 27 {
                                    0x3F8527CD60AF8B85u64
                                } else {
                                    0x3F86723EEA8D3709u64
                                }
                            }
                        } else {
                            if i < 30 {
                                if i < 29 {
                                    0x3F87C8292A3DB6B3u64
                                } else {
                                    0x3F8929A88D67B521u64
                                }
                            } else {
                                if i < 31 {
                                    0x3F8A96D91A8016BDu64
                                } else {
                                    0x3F8C0FD67499FAB6u64
                                }
                            }
                        }
                    }
                }
            } else {
                if i < 48 {
                    if i < 40 {
                        if i < 36 {
                            if i < 34 {
                                if i < 33 {
                                    0x3F8D94BBDEFD740Eu64
                                } else {
                                    0x3F8F25A44089883Fu64
                                }
                            } else {
                                if i < 35 {
                                    0x3F9061551372C694u64
                                } else {
                                    0x3F9135F3E4C2CCE2u64
                                }
                            }
                        } else {
                            if i < 38 {
                                if i < 37 {
                                    0x3F9210BB8642B172u64
                                } else {
                                    0x3F92F1B8C1AE46BDu64
                                }
                            } else {
                                if i < 39 {
                                    0x3F93D8F839B79C0Bu64
                                } else {
                                    0x3F94C6866B3E9FA4u64
                                }
                            }
                        }
                    } else {
                        if i < 44 {
                            if i < 42 {
                                if i < 41 {
                                    0x3F95BA6FAE794313u64
                                } else {
                                    0x3F96B4C0380D2DEEu64
                                }
                            } else {
                                if i < 43 {
                                    0x3F97B5841A1BF3ACu64
                                } else {
                                    0x3F98BCC74542ADDBu64
                                }
                            }
                        } else {
                            if i < 46 {
                                if i < 45 {
                                    0x3F99CA95898DC8B5u64
                                } else {
                                    0x3F9ADEFA9761C020u64
                                }
                            } else {
                                if i < 47 {
                                    0x3F9BFA0200597BD9u64
                                } else {
                                    0x3F9D1BB7381AEC1Fu64
                                }
                            }
                        }
                    }
                } else {
                    if i < 56 {
                        if i < 52 {
                            if i < 50 {
                                if i < 49 {
                                    0x3F9E442595227BCAu64
                                } else {
                                    0x3F9F73585185E1B5u64
                                }
                            } else {
                                if i < 51 {
                                    0x3FA054AD45D76878u64
                                } else {
                                    0x3FA0F31BA386FF26u64
                                }
                            }
                        } else {
                            if i < 54 {
                                if i < 53 {
                                    0x3FA194FCB663747Bu64
                                } else {
                                    0x3FA23A55E62A662Au64
                                }
                            } else {
                                if i < 55 {
                                    0x3FA2E32C8E148D11u64
                                } else {
                                    0x3FA38F85FD21EACFu64
                                }
                            }
                        }
                    } else {
                        if i < 60 {
                            if i < 58 {
                                if i < 57 {
                                    0x3FA43F67766310FFu64
                                } else {
                                    0x3FA4F2D6313FA8D0u64
                                }
                            } else {
                                if i < 59 {
                                    0x3FA5A9D759BA5ED0u64
                                } else {
                                    0x3FA6647010B254EEu64
                                }
                            }
                        } else {
                            if i < 62 {
                                if i < 61 {
                                    0x3FA722A56C2239EEu64
                                } else {
                                    0x3FA7E47C775D2427u64
                                }
                            } else {
                                if i < 63 {
                                    0x3FA8A9FA33494B07u64
                                } else {
                                    0x3FA973239698B9CCu64
                                }
                            }
                        }
                    }
                }
            }
        } else {
            if i < 96 {
                if i < 80 {
                    if i < 72 {
                        if i < 68 {
                            if i < 66 {
                                if i < 65 {
                                    0x3FAA3FFD8E001389u64
                                } else {
                                    0x3FAB108CFC6B7FBCu64
                                }
                            } else {
                                if i < 67 {
                                    0x3FABE4D6BB31D522u64
                                } else {
                                    0x3FACBCDF9A4616F2u64
                                }
                            }
                        } else {
                            if i < 70 {
                                if i < 69 {
                                    0x3FAD98AC60675833u64
                                } else {
                                    0x3FAE7841CB4F16DFu64
                                }
                            } else {
                                if i < 71 {
                                    0x3FAF5BA48FDE2048u64
                                } else {
                                    0x3FB0216CAD240765u64
                                }
                            }
                        }
                    } else {
                        if i < 76 {
                            if i < 74 {
                                if i < 73 {
                                    0x3FB096F2671EB815u64
                                } else {
                                    0x3FB10E65C38A5192u64
                                }
                            } else {
                                if i < 75 {
                                    0x3FB187C90BF8BCE2u64
                                } else {
                                    0x3FB2031E85F5D6DAu64
                                }
                            }
                        } else {
                            if i < 78 {
                                if i < 77 {
                                    0x3FB28068731A1952u64
                                } else {
                                    0x3FB2FFA9111CB94Bu64
                                }
                            } else {
                                if i < 79 {
                                    0x3FB380E299E53F92u64
                                } else {
                                    0x3FB40417439CA10Fu64
                                }
                            }
                        }
                    }
                } else {
                    if i < 88 {
                        if i < 84 {
                            if i < 82 {
                                if i < 81 {
                                    0x3FB4894940BDDBFBu64
                                } else {
                                    0x3FB5107AC0261E59u64
                                }
                            } else {
                                if i < 83 {
                                    0x3FB599ADED247AACu64
                                } else {
                                    0x3FB624E4EF892ED4u64
                                }
                            }
                        } else {
                            if i < 86 {
                                if i < 85 {
                                    0x3FB6B221EBB4817Eu64
                                } else {
                                    0x3FB7416702A539D1u64
                                }
                            } else {
                                if i < 87 {
                                    0x3FB7D2B65206B527u64
                                } else {
                                    0x3FB86611F43E9E6Au64
                                }
                            }
                        }
                    } else {
                        if i < 92 {
                            if i < 90 {
                                if i < 89 {
                                    0x3FB8FB7C007A4A70u64
                                } else {
                                    0x3FB992F68ABBBC89u64
                                }
                            } else {
                                if i < 91 {
                                    0x3FBA2C83A3E6566Du64
                                } else {
                                    0x3FBAC82559CB3644u64
                                }
                            }
                        } else {
                            if i < 94 {
                                if i < 93 {
                                    0x3FBB65DDB7354604u64
                                } else {
                                    0x3FBC05AEC3F4FE5Eu64
                                }
                            } else {
                                if i < 95 {
                                    0x3FBCA79A84EBE030u64
                                } else {
                                    0x3FBD4BA2FC17A6A5u64
                                }
                            }
                        }
                    }
                }
            } else {
                if i < 112 {
                    if i < 104 {
                        if i < 100 {
                            if i < 98 {
                                if i < 97 {
                                    0x3FBDF1CA289D34B8u64
                                } else {
                                    0x3FBE9A1206D34003u64
                                }
                            } else {
                                if i < 99 {
                                    0x3FBF447C904CBB4Eu64
                                } else {
                                    0x3FBFF10BBBE302C2u64
                                }
                            }
                        } else {
                            if i < 102 {
                                if i < 101 {
                                    0x3FC04FE0BEDFE5F1u64
                                } else {
                                    0x3FC0A84FE3B36D8Fu64
                                }
                            } else {
                                if i < 103 {
                                    0x3FC101D443DFC06Fu64
                                } else {
                                    0x3FC15C6ED58EEFDFu64
                                }
                            }
                        }
                    } else {
                        if i < 108 {
                            if i < 106 {
                                if i < 105 {
                                    0x3FC1B8208DA5FEF0u64
                                } else {
                                    0x3FC214EA5FC9514Au64
                                }
                            } else {
                                if i < 107 {
                                    0x3FC272CD3E610123u64
                                } else {
                                    0x3FC2D1CA1A9D1CFBu64
                                }
                            }
                        } else {
                            if i < 110 {
                                if i < 109 {
                                    0x3FC331E1E479CDF5u64
                                } else {
                                    0x3FC393158AC3674Eu64
                                }
                            } else {
                                if i < 111 {
                                    0x3FC3F565FB1A5FD5u64
                                } else {
                                    0x3FC458D421F735DFu64
                                }
                            }
                        }
                    }
                } else {
                    if i < 120 {
                        if i < 116 {
                            if i < 114 {
                                if i < 113 {
                                    0x3FC4BD60EAAE3E73u64
                                } else {
                                    0x3FC5230D3F736034u64
                                }
                            } else {
                                if i < 115 {
                                    0x3FC589DA095DBAA1u64
                                } else {
                                    0x3FC5F1C8306B3A3Cu64
                                }
                            }
                        } else {
                            if i < 118 {
                                if i < 117 {
                                    0x3FC65AD89B841A2Bu64
                                } else {
                                    0x3FC6C50C307E53BFu64
                                }
                            } else {
                                if i < 119 {
                                    0x3FC73063D420FC80u64
                                } else {
                                    0x3FC79CE06A279303u64
                                }
                            }
                        }
                    } else {
                        if i < 124 {
                            if i < 122 {
                                if i < 121 {
                                    0x3FC80A82D5453B5Du64
                                } else {
                                    0x3FC8794BF727EB3Fu64
                                }
                            } else {
                                if i < 123 {
                                    0x3FC8E93CB07B8679u64
                                } else {
                                    0x3FC95A55E0ECEC0Bu64
                                }
                            }
                        } else {
                            if i < 126 {
                                if i < 125 {
                                    0x3FC9CC98672CF47Eu64
                                } else {
                                    0x3FCA400520F3619Cu64
                                }
                            } else {
                                if i < 127 {
                                    0x3FCAB49CEB01C003u64
                                } else {
                                    0x3FCB2A60A1263B0Au64
                                }
                            }
                        }
                    }
                }
            }
        }
    } else {
        if i < 192 {
            if i < 160 {
                if i < 144 {
                    if i < 136 {
                        if i < 132 {
                            if i < 130 {
                                if i < 129 {
                                    0x3FCBA1511E3E632Du64
                                } else {
                                    0x3FCC196F3C39E76Fu64
                                }
                            } else {
                                if i < 131 {
                                    0x3FCC92BBD41D41FEu64
                                } else {
                                    0x3FCD0D37BE045851u64
                                }
                            }
                        } else {
                            if i < 134 {
                                if i < 133 {
                                    0x3FCD88E3D1250F68u64
                                } else {
                                    0x3FCE05C0E3D1D3E0u64
                                }
                            } else {
                                if i < 135 {
                                    0x3FCE83CFCB7C16F0u64
                                } else {
                                    0x3FCF03115CB6BFD3u64
                                }
                            }
                        }
                    } else {
                        if i < 140 {
                            if i < 138 {
                                if i < 137 {
                                    0x3FCF83866B38924Du64
                                } else {
                                    0x3FD00297E4EF4553u64
                                }
                            } else {
                                if i < 139 {
                                    0x3FD044072557177Au64
                                } else {
                                    0x3FD086115F6BEB3Au64
                                }
                            }
                        } else {
                            if i < 142 {
                                if i < 141 {
                                    0x3FD0C8B6FB5C735Eu64
                                } else {
                                    0x3FD10BF860EF039Au64
                                }
                            } else {
                                if i < 143 {
                                    0x3FD14FD5F782A5A6u64
                                } else {
                                    0x3FD1945026102997u64
                                }
                            }
                        }
                    }
                } else {
                    if i < 152 {
                        if i < 148 {
                            if i < 146 {
                                if i < 145 {
                                    0x3FD1D967532B31B1u64
                                } else {
                                    0x3FD21F1BE50339E7u64
                                }
                            } else {
                                if i < 147 {
                                    0x3FD2656E41649AE3u64
                                } else {
                                    0x3FD2AC5ECDB988F8u64
                                }
                            }
                        } else {
                            if i < 150 {
                                if i < 149 {
                                    0x3FD2F3EDEF0B0ED8u64
                                } else {
                                    0x3FD33C1C0A020438u64
                                }
                            } else {
                                if i < 151 {
                                    0x3FD384E982E800B1u64
                                } else {
                                    0x3FD3CE56BDA84A81u64
                                }
                            }
                        }
                    } else {
                        if i < 156 {
                            if i < 154 {
                                if i < 153 {
                                    0x3FD418641DD0C1BCu64
                                } else {
                                    0x3FD463120692C7AFu64
                                }
                            } else {
                                if i < 155 {
                                    0x3FD4AE60DAC4229Du64
                                } else {
                                    0x3FD4FA50FCDFDE15u64
                                }
                            }
                        } else {
                            if i < 158 {
                                if i < 157 {
                                    0x3FD546E2CF0727A9u64
                                } else {
                                    0x3FD59416B3022858u64
                                }
                            } else {
                                if i < 159 {
                                    0x3FD5E1ED0A40DAABu64
                                } else {
                                    0x3FD6306635DBDD7Bu64
                                }
                            }
                        }
                    }
                }
            } else {
                if i < 176 {
                    if i < 168 {
                        if i < 164 {
                            if i < 162 {
                                if i < 161 {
                                    0x3FD67F82969543A2u64
                                } else {
                                    0x3FD6CF428CD96079u64
                                }
                            } else {
                                if i < 163 {
                                    0x3FD71FA678BF915Du64
                                } else {
                                    0x3FD770AEBA0B042Au64
                                }
                            }
                        } else {
                            if i < 166 {
                                if i < 165 {
                                    0x3FD7C25BB02B7AC5u64
                                } else {
                                    0x3FD814ADBA3E0BD9u64
                                }
                            } else {
                                if i < 167 {
                                    0x3FD867A5370DE0B1u64
                                } else {
                                    0x3FD8BB428514F067u64
                                }
                            }
                        }
                    } else {
                        if i < 172 {
                            if i < 170 {
                                if i < 169 {
                                    0x3FD90F86027CB84Eu64
                                } else {
                                    0x3FD964700D1EF1B1u64
                                }
                            } else {
                                if i < 171 {
                                    0x3FD9BA0102864521u64
                                } else {
                                    0x3FDA10393FEEFAFDu64
                                }
                            }
                        } else {
                            if i < 174 {
                                if i < 173 {
                                    0x3FDA67192247A9BEu64
                                } else {
                                    0x3FDABEA10631E195u64
                                }
                            } else {
                                if i < 175 {
                                    0x3FDB16D14802D5CAu64
                                } else {
                                    0x3FDB6FAA43C403BBu64
                                }
                            }
                        }
                    }
                } else {
                    if i < 184 {
                        if i < 180 {
                            if i < 178 {
                                if i < 177 {
                                    0x3FDBC92C5533D785u64
                                } else {
                                    0x3FDC2357D7C64E5Du64
                                }
                            } else {
                                if i < 179 {
                                    0x3FDC7E2D26A596DEu64
                                } else {
                                    0x3FDCD9AC9CB2AEF2u64
                                }
                            }
                        } else {
                            if i < 182 {
                                if i < 181 {
                                    0x3FDD35D69485FFC5u64
                                } else {
                                    0x3FDD92AB686FF782u64
                                }
                            } else {
                                if i < 183 {
                                    0x3FDDF02B7279A10Du64
                                } else {
                                    0x3FDE4E570C6539C5u64
                                }
                            }
                        }
                    } else {
                        if i < 188 {
                            if i < 186 {
                                if i < 185 {
                                    0x3FDEAD2E8FAEC526u64
                                } else {
                                    0x3FDF0CB2558C9EA4u64
                                }
                            } else {
                                if i < 187 {
                                    0x3FDF6CE2B6F00983u64
                                } else {
                                    0x3FDFCDC00C85BEC2u64
                                }
                            }
                        } else {
                            if i < 190 {
                                if i < 189 {
                                    0x3FE017A5575B3CB2u64
                                } else {
                                    0x3FE048C17AD3C04Bu64
                                }
                            } else {
                                if i < 191 {
                                    0x3FE07A349C9D9837u64
                                } else {
                                    0x3FE0ABFEE888C050u64
                                }
                            }
                        }
                    }
                }
            }
        } else {
            if i < 224 {
                if i < 208 {
                    if i < 200 {
                        if i < 196 {
                            if i < 194 {
                                if i < 193 {
                                    0x3FE0DE208A4444C8u64
                                } else {
                                    0x3FE11099AD5E83EBu64
                                }
                            } else {
                                if i < 195 {
                                    0x3FE1436A7D456EEFu64
                                } else {
                                    0x3FE176932546CA12u64
                                }
                            }
                        } else {
                            if i < 198 {
                                if i < 197 {
                                    0x3FE1AA13D0906BDAu64
                                } else {
                                    0x3FE1DDECAA307B85u64
                                }
                            } else {
                                if i < 199 {
                                    0x3FE2121DDD15AECEu64
                                } else {
                                    0x3FE246A7940F86D1u64
                                }
                            }
                        }
                    } else {
                        if i < 204 {
                            if i < 202 {
                                if i < 201 {
                                    0x3FE27B89F9CE8C4Bu64
                                } else {
                                    0x3FE2B0C538E48B07u64
                                }
                            } else {
                                if i < 203 {
                                    0x3FE2E6597BC4CCA0u64
                                } else {
                                    0x3FE31C46ECC4528Du64
                                }
                            }
                        } else {
                            if i < 206 {
                                if i < 205 {
                                    0x3FE3528DB61A0F73u64
                                } else {
                                    0x3FE3892E01DF1FCCu64
                                }
                            } else {
                                if i < 207 {
                                    0x3FE3C027FA0F01EBu64
                                } else {
                                    0x3FE3F77BC887CD3Bu64
                                }
                            }
                        }
                    }
                } else {
                    if i < 216 {
                        if i < 212 {
                            if i < 210 {
                                if i < 209 {
                                    0x3FE42F29970A68F8u64
                                } else {
                                    0x3FE467318F3AC22Du64
                                }
                            } else {
                                if i < 211 {
                                    0x3FE49F93DAA00113u64
                                } else {
                                    0x3FE4D850A2A4BDE1u64
                                }
                            }
                        } else {
                            if i < 214 {
                                if i < 213 {
                                    0x3FE51168109734E5u64
                                } else {
                                    0x3FE54ADA4DA97A1Bu64
                                }
                            } else {
                                if i < 215 {
                                    0x3FE584A782F1AC23u64
                                } else {
                                    0x3FE5BECFD96A2698u64
                                }
                            }
                        }
                    } else {
                        if i < 220 {
                            if i < 218 {
                                if i < 217 {
                                    0x3FE5F95379F1B3EDu64
                                } else {
                                    0x3FE634328D4BBE97u64
                                }
                            } else {
                                if i < 219 {
                                    0x3FE66F6D3C2081CFu64
                                } else {
                                    0x3FE6AB03AEFD39AAu64
                                }
                            }
                        } else {
                            if i < 222 {
                                if i < 221 {
                                    0x3FE6E6F60E5452B1u64
                                } else {
                                    0x3FE72344827D98F6u64
                                }
                            } else {
                                if i < 223 {
                                    0x3FE75FEF33B6669Bu64
                                } else {
                                    0x3FE79CF64A21D1E2u64
                                }
                            }
                        }
                    }
                }
            } else {
                if i < 240 {
                    if i < 232 {
                        if i < 228 {
                            if i < 226 {
                                if i < 225 {
                                    0x3FE7DA59EDC8DAB0u64
                                } else {
                                    0x3FE8181A469A9787u64
                                }
                            } else {
                                if i < 227 {
                                    0x3FE856377C6C6224u64
                                } else {
                                    0x3FE894B1B6FA0377u64
                                }
                            }
                        } else {
                            if i < 230 {
                                if i < 229 {
                                    0x3FE8D3891DE5DF49u64
                                } else {
                                    0x3FE912BDD8B91F45u64
                                }
                            } else {
                                if i < 231 {
                                    0x3FE952500EE3DDA5u64
                                } else {
                                    0x3FE9923FE7BD4F67u64
                                }
                            }
                        }
                    } else {
                        if i < 236 {
                            if i < 234 {
                                if i < 233 {
                                    0x3FE9D28D8A83EDFCu64
                                } else {
                                    0x3FEA13391E5DA09Fu64
                                }
                            } else {
                                if i < 235 {
                                    0x3FEA5442CA57E52Eu64
                                } else {
                                    0x3FEA95AAB567F88Fu64
                                }
                            }
                        } else {
                            if i < 238 {
                                if i < 237 {
                                    0x3FEAD771066AFEC2u64
                                } else {
                                    0x3FEB1995E4262A69u64
                                }
                            } else {
                                if i < 239 {
                                    0x3FEB5C197546E3F8u64
                                } else {
                                    0x3FEB9EFBE062F086u64
                                }
                            }
                        }
                    }
                } else {
                    if i < 248 {
                        if i < 244 {
                            if i < 242 {
                                if i < 241 {
                                    0x3FEBE23D4BF8981Bu64
                                } else {
                                    0x3FEC25DDDE6ECBBBu64
                                }
                            } else {
                                if i < 243 {
                                    0x3FEC69DDBE154AF1u64
                                } else {
                                    0x3FECAE3D1124C90Bu64
                                }
                            }
                        } else {
                            if i < 246 {
                                if i < 245 {
                                    0x3FECF2FBFDBF11F1u64
                                } else {
                                    0x3FED381AA9EF2E82u64
                                }
                            } else {
                                if i < 247 {
                                    0x3FED7D993BA988D4u64
                                } else {
                                    0x3FEDC377D8CC0FD5u64
                                }
                            }
                        }
                    } else {
                        if i < 252 {
                            if i < 250 {
                                if i < 249 {
                                    0x3FEE09B6A71E5AA6u64
                                } else {
                                    0x3FEE5055CC51CBB4u64
                                }
                            } else {
                                if i < 251 {
                                    0x3FEE97556E01B351u64
                                } else {
                                    0x3FEEDEB5B1B37216u64
                                }
                            }
                        } else {
                            if i < 254 {
                                if i < 253 {
                                    0x3FEF2676BCD69ADEu64
                                } else {
                                    0x3FEF6E98B4C51466u64
                                }
                            } else {
                                if i < 255 {
                                    0x3FEFB71BBEC33AB2u64
                                } else {
                                    0x3FF0000000000000u64
                                }
                            }
                        }
                    }
                }
            }
        }
    }
}

/// Bit pattern of the arithmetic midpoint between the linear intensities
/// of the encoded bytes `i` and `i + 1`.  The entries increase strictly
/// and interleave the forward table.
pub open spec fn mid_bits(i: int) -> u64 {
    if i < 127 {
        if i < 63 {
            if i < 31 {
                if i < 15 {
                    if i < 7 {
                        if i < 3 {
                            if i < 1 {
                                0x3F23E45677C176F7u64
                            } else {
                                if i < 2 {
                                    0x3F3DD681B3A23272u64
                                } else {
                                    0x3F48DD6C15B1D4B4u64
                                }
                            }
                        } else {
                            if i < 5 {
                                if i < 4 {
                                    0x3F5167CBA8C94818u64
                                } else {
                                    0x3F5660E146B9A5D6u64
                                }
                            } else {
                                if i < 6 {
                                    0x3F5B59F6E4AA0393u64
                                } else {
                                    0x3F602986414D30A8u64
                                }
                            }
                        }
                    } else {
                        if i < 11 {
                            if i < 9 {
                                if i < 8 {
                                    0x3F62A61110455F88u64
                                } else {
                                    0x3F65229BDF3D8E66u64
                                }
                            } else {
                                if i < 10 {
                                    0x3F679F26AE35BD44u64
                                } else {
                                    0x3F6A23CEE56BB8A6u64
                                }
                            }
                        } else {
                            if i < 13 {
                                if i < 12 {
                                    0x3F6CC431C6191B3Bu64
                                } else {
                                    0x3F6F8B51AB0BD098u64
                                }
                            } else {
                                if i < 14 {
                                    0x3F713C7DBF3973E5u64
                                } else {
                                    0x3F72C6E13741A34Du64
                                }
                            }
                        }
                    }
                } else {
                    if i < 23 {
                        if i < 19 {
                            if i < 17 {
                                if i < 16 {
                                    0x3F74651B3E08D5D0u64
                                } else {
                                    0x3F76177253E6491Eu64
                                }
                            } else {
                                if i < 18 {
                                    0x3F77DE2B8DC13F3Bu64
                                } else {
                                    0x3F79B98AA7F59459u64
                                }
                            }
                        } else {
                            if i < 21 {
                                if i < 20 {
                                    0x3F7BA9D217AC69BEu64
                                } else {
                                    0x3F7DAF431AD46C7Eu64
                                }
                            } else {
                                if i < 22 {
                                    0x3F7FCA1DC6DF4F20u64
                                } else {
                                    0x3F80FD508B32897Eu64
                                }
                            }
                        }
                    } else {
                        if i < 27 {
                            if i < 25 {
                                if i < 24 {
                                    0x3F8220857AE4C594u64
                                } else {
                                    0x3F834ECC277E7A24u64
                                }
                            } else {
                                if i < 26 {
                                    0x3F8488428A36BA75u64
                                } else {
                                    0x3F85CD06259E6147u64
                                }
                            }
                        } else {
                            if i < 29 {
                                if i < 28 {
                                    0x3F871D340A6576DEu64
                                } else {
                                    0x3F8878E8DBD2B5EAu64
                                }
                            } else {
                                if i < 30 {
                                    0x3F89E040D3F3E5EFu64
                                } else {
                                    0x3F8B5357C78D08BAu64
                                }
                            }
                        }
                    }
                }
            } else {
                if i < 47 {
                    if i < 39 {
                        if i < 35 {
                            if i < 33 {
                                if i < 32 {
                                    0x3F8CD24929CBB762u64
                                } else {
                                    0x3F8E5D300FC37E26u64
                                }
                            } else {
                                if i < 34 {
                                    0x3F8FF42733B78AB4u64
                                } else {
                                    0x3F90CBA47C1AC9BBu64
                                }
                            }
                        } else {
                            if i < 37 {
                                if i < 36 {
                                    0x3F91A357B582BF2Au64
                                } else {
                                    0x3F92813A23F87C18u64
                                }
                            } else {
                                if i < 38 {
                                    0x3F9365587DB2F164u64
                                } else {
                                    0x3F944FBF527B1DD8u64
                                }
                            }
                        }
                    } else {
                        if i < 43 {
                            if i < 41 {
                                if i < 40 {
                                    0x3F95407B0CDBF15Cu64
                                } else {
                                    0x3F963797F3433880u64
                                }
                            } else {
                                if i < 42 {
                                    0x3F973522291490CDu64
                                } else {
                                    0x3F983925AFAF50C4u64
                                }
                            }
                        } else {
                            if i < 45 {
                                if i < 44 {
                                    0x3F9943AE67683B48u64
                                } else {
                                    0x3F9A54C81077C46Au64
                                }
                            } else {
                                if i < 46 {
                                    0x3F9B6C7E4BDD9DFCu64
                                } else {
                                    0x3F9C8ADC9C3A33FCu64
                                }
                            }
                        }
                    }
                } else {
                    if i < 55 {
                        if i < 51 {
                            if i < 49 {
                                if i < 48 {
                                    0x3F9DAFEE669EB3F4u64
                                } else {
                                    0x3F9EDBBEF3542EC0u64
                                }
                            } else {
                                if i < 50 {
                                    0x3FA0072CB74D2CA9u64
                                } else {
                                    0x3FA0A3E474AF33CFu64
                                }
                            }
                        } else {
                            if i < 53 {
                                if i < 52 {
                                    0x3FA1440C2CF539D0u64
                                } else {
                                    0x3FA1E7A94E46ED52u64
                                }
                            } else {
                                if i < 54 {
                                    0x3FA28EC13A1F799Eu64
                                } else {
                                    0x3FA33959459B3BF0u64
                                }
                            }
                        }
                    } else {
                        if i < 59 {
                            if i < 57 {
                                if i < 56 {
                                    0x3FA3E776B9C27DE7u64
                                } else {
                                    0x3FA4991ED3D15CE8u64
                                }
                            } else {
                                if i < 58 {
                                    0x3FA54E56C57D03D0u64
                                } else {
                                    0x3FA60723B53659DFu64
                                }
                            }
                        } else {
                            if i < 61 {
                                if i < 60 {
                                    0x3FA6C38ABE6A476Eu64
                                } else {
                                    0x3FA78390F1BFAF0Au64
                                }
                            } else {
                                if i < 62 {
                                    0x3FA8473B55533797u64
                                } else {
                                    0x3FA90E8EE4F1026Au64
                                }
                            }
                        }
                    }
                }
            }
        } else {
            if i < 95 {
                if i < 79 {
                    if i < 71 {
                        if i < 67 {
                            if i < 65 {
                                if i < 64 {
                                    0x3FA9D990924C66AAu64
                                } else {
                                    0x3FAAA8454535C9A2u64
                                }
                            } else {
                                if i < 66 {
                                    0x3FAB7AB1DBCEAA6Fu64
                                } else {
                                    0x3FAC50DB2ABBF60Au64
                                }
                            }
                        } else {
                            if i < 69 {
                                if i < 68 {
                                    0x3FAD2AC5FD56B792u64
                                } else {
                                    0x3FAE087715DB3789u64
                                }
                            } else {
                                if i < 70 {
                                    0x3FAEE9F32D969B94u64
                                } else {
                                    0x3FAFCF3EF5131789u64
                                }
                            }
                        }
                    } else {
                        if i < 75 {
                            if i < 73 {
                                if i < 72 {
                                    0x3FB05C2F8A215FBDu64
                                } else {
                                    0x3FB0D2AC155484D4u64
                                }
                            } else {
                                if i < 74 {
                                    0x3FB14B1767C1873Au64
                                } else {
                                    0x3FB1C573C8F749DEu64
                                }
                            }
                        } else {
                            if i < 77 {
                                if i < 76 {
                                    0x3FB241C37C87F816u64
                                } else {
                                    0x3FB2C008C21B694Eu64
                                }
                            } else {
                                if i < 78 {
                                    0x3FB34045D580FC6Eu64
                                } else {
                                    0x3FB3C27CEEC0F050u64
                                }
                            }
                        }
                    }
                } else {
                    if i < 87 {
                        if i < 83 {
                            if i < 81 {
                                if i < 80 {
                                    0x3FB446B0422D3E85u64
                                } else {
                                    0x3FB4CCE20071FD2Au64
                                }
                            } else {
                                if i < 82 {
                                    0x3FB5551456A54C82u64
                                } else {
                                    0x3FB5DF496E56D4C0u64
                                }
                            }
                        } else {
                            if i < 85 {
                                if i < 84 {
                                    0x3FB66B836D9ED829u64
                                } else {
                                    0x3FB6F9C4772CDDA8u64
                                }
                            } else {
                                if i < 86 {
                                    0x3FB78A0EAA55F77Cu64
                                } else {
                                    0x3FB81C642322A9C8u64
                                }
                            }
                        }
                    } else {
                        if i < 91 {
                            if i < 89 {
                                if i < 88 {
                                    0x3FB8B0C6FA5C746Du64
                                } else {
                                    0x3FB94739459B037Cu64
                                }
                            } else {
                                if i < 90 {
                                    0x3FB9DFBD1751097Bu64
                                } else {
                                    0x3FBA7A547ED8C658u64
                                }
                            }
                        } else {
                            if i < 93 {
                                if i < 92 {
                                    0x3FBB170188803E24u64
                                } else {
                                    0x3FBBB5C63D952231u64
                                }
                            } else {
                                if i < 94 {
                                    0x3FBC56A4A4706F47u64
                                } else {
                                    0x3FBCF99EC081C36Au64
                                }
                            }
                        }
                    }
                }
            } else {
                if i < 111 {
                    if i < 103 {
                        if i < 99 {
                            if i < 97 {
                                if i < 96 {
                                    0x3FBD9EB6925A6DAEu64
                                } else {
                                    0x3FBE45EE17B83A5Eu64
                                }
                            } else {
                                if i < 98 {
                                    0x3FBEEF474B8FFDA8u64
                                } else {
                                    0x3FBF9AC42617DF08u64
                                }
                            }
                        } else {
                            if i < 101 {
                                if i < 100 {
                                    0x3FC024334E68B3A9u64
                                } else {
                                    0x3FC07C185149A9C0u64
                                }
                            } else {
                                if i < 102 {
                                    0x3FC0D51213C996FFu64
                                } else {
                                    0x3FC12F218CB75827u64
                                }
                            }
                        }
                    } else {
                        if i < 107 {
                            if i < 105 {
                                if i < 104 {
                                    0x3FC18A47B19A7768u64
                                } else {
                                    0x3FC1E68576B7A81Du64
                                }
                            } else {
                                if i < 106 {
                                    0x3FC243DBCF152936u64
                                } else {
                                    0x3FC2A24BAC7F0F0Fu64
                                }
                            }
                        } else {
                            if i < 109 {
                                if i < 108 {
                                    0x3FC301D5FF8B7578u64
                                } else {
                                    0x3FC3627BB79E9AA2u64
                                }
                            } else {
                                if i < 110 {
                                    0x3FC3C43DC2EEE392u64
                                } else {
                                    0x3FC4271D0E88CADAu64
                                }
                            }
                        }
                    }
                } else {
                    if i < 119 {
                        if i < 115 {
                            if i < 113 {
                                if i < 112 {
                                    0x3FC48B1A8652BA29u64
                                } else {
                                    0x3FC4F0371510CF54u64
                                }
                            } else {
                                if i < 114 {
                                    0x3FC55673A4688D6Au64
                                } else {
                                    0x3FC5BDD11CE47A6Eu64
                                }
                            }
                        } else {
                            if i < 117 {
                                if i < 116 {
                                    0x3FC6265065F7AA34u64
                                } else {
                                    0x3FC68FF2660136F5u64
                                }
                            } else {
                                if i < 118 {
                                    0x3FC6FAB8024FA820u64
                                } else {
                                    0x3FC766A21F2447C2u64
                                }
                            }
                        }
                    } else {
                        if i < 123 {
                            if i < 121 {
                                if i < 120 {
                                    0x3FC7D3B19FB66730u64
                                } else {
                                    0x3FC841E76636934Eu64
                                }
                            } else {
                                if i < 122 {
                                    0x3FC8B14453D1B8DCu64
                                } else {
                                    0x3FC921C948B43942u64
                                }
                            }
                        } else {
                            if i < 125 {
                                if i < 124 {
                                    0x3FC99377240CF044u64
                                } else {
                                    0x3FCA064EC4102B0Du64
                                }
                            } else {
                                if i < 126 {
                                    0x3FCA7A5105FA90D0u64
                                } else {
                                    0x3FCAEF7EC613FD86u64
                                }
                            }
                        }
                    }
                }
            }
        }
    } else {
        if i < 191 {
            if i < 159 {
                if i < 143 {
                    if i < 135 {
                        if i < 131 {
                            if i < 129 {
                                if i < 128 {
                                    0x3FCB65D8DFB24F1Cu64
                                } else {
                                    0x3FCBDD602D3C254Eu64
                                }
                            } else {
                                if i < 130 {
                                    0x3FCC5615882B94B6u64
                                } else {
                                    0x3FCCCFF9C910CD28u64
                                }
                            }
                        } else {
                            if i < 133 {
                                if i < 132 {
                                    0x3FCD4B0DC794B3DCu64
                                } else {
                                    0x3FCDC7525A7B71A4u64
                                }
                            } else {
                                if i < 134 {
                                    0x3FCE44C857A6F568u64
                                } else {
                                    0x3FCEC37094196B62u64
                                }
                            }
                        }
                    } else {
                        if i < 139 {
                            if i < 137 {
                                if i < 136 {
                                    0x3FCF434BE3F7A910u64
                                } else {
                                    0x3FCFC45B1A8B8E7Au64
                                }
                            } else {
                                if i < 138 {
                                    0x3FD0234F85232E66u64
                                } else {
                                    0x3FD0650C4261815Au64
                                }
                            }
                        } else {
                            if i < 141 {
                                if i < 140 {
                                    0x3FD0A7642D642F4Cu64
                                } else {
                                    0x3FD0EA57AE25BB7Cu64
                                }
                            } else {
                                if i < 142 {
                                    0x3FD12DE72C38D4A0u64
                                } else {
                                    0x3FD172130EC9679Eu64
                                }
                            }
                        }
                    }
                } else {
                    if i < 151 {
                        if i < 147 {
                            if i < 145 {
                                if i < 144 {
                                    0x3FD1B6DBBC9DADA4u64
                                } else {
                                    0x3FD1FC419C1735CCu64
                                }
                            } else {
                                if i < 146 {
                                    0x3FD242451333EA65u64
                                } else {
                                    0x3FD288E6878F11EEu64
                                }
                            }
                        } else {
                            if i < 149 {
                                if i < 148 {
                                    0x3FD2D0265E624BE8u64
                                } else {
                                    0x3FD31804FC868988u64
                                }
                            } else {
                                if i < 150 {
                                    0x3FD36082C6750274u64
                                } else {
                                    0x3FD3A9A020482599u64
                                }
                            }
                        }
                    } else {
                        if i < 155 {
                            if i < 153 {
                                if i < 152 {
                                    0x3FD3F35D6DBC861Eu64
                                } else {
                                    0x3FD43DBB1231C4B6u64
                                }
                            } else {
                                if i < 154 {
                                    0x3FD488B970AB7526u64
                                } else {
                                    0x3FD4D458EBD20059u64
                                }
                            }
                        } else {
                            if i < 157 {
                                if i < 156 {
                                    0x3FD52099E5F382DFu64
                                } else {
                                    0x3FD56D7CC104A800u64
                                }
                            } else {
                                if i < 158 {
                                    0x3FD5BB01DEA18182u64
                                } else {
                                    0x3FD60929A00E5C13u64
                                }
                            }
                        }
                    }
                }
            } else {
                if i < 175 {
                    if i < 167 {
                        if i < 163 {
                            if i < 161 {
                                if i < 160 {
                                    0x3FD657F46638908Eu64
                                } else {
                                    0x3FD6A76291B7520Eu64
                                }
                            } else {
                                if i < 162 {
                                    0x3FD6F77482CC78EBu64
                                } else {
                                    0x3FD7482A99654AC4u64
                                }
                            }
                        } else {
                            if i < 165 {
                                if i < 164 {
                                    0x3FD79985351B3F78u64
                                } else {
                                    0x3FD7EB84B534C34Fu64
                                }
                            } else {
                                if i < 166 {
                                    0x3FD83E2978A5F645u64
                                } else {
                                    0x3FD89173DE11688Cu64
                                }
                            }
                        }
                    } else {
                        if i < 171 {
                            if i < 169 {
                                if i < 168 {
                                    0x3FD8E56443C8D45Au64
                                } else {
                                    0x3FD939FB07CDD500u64
                                }
                            } else {
                                if i < 170 {
                                    0x3FD98F3887D29B69u64
                                } else {
                                    0x3FD9E51D213AA00Fu64
                                }
                            }
                        } else {
                            if i < 173 {
                                if i < 172 {
                                    0x3FDA3BA9311B525Eu64
                                } else {
                                    0x3FDA92DD143CC5AAu64
                                }
                            } else {
                                if i < 174 {
                                    0x3FDAEAB9271A5BB0u64
                                } else {
                                    0x3FDB433DC5E36CC2u64
                                }
                            }
                        }
                    }
                } else {
                    if i < 183 {
                        if i < 179 {
                            if i < 177 {
                                if i < 176 {
                                    0x3FDB9C6B4C7BEDA0u64
                                } else {
                                    0x3FDBF642167D12F1u64
                                }
                            } else {
                                if i < 178 {
                                    0x3FDC50C27F35F29Eu64
                                } else {
                                    0x3FDCABECE1AC22E8u64
                                }
                            }
                        } else {
                            if i < 181 {
                                if i < 180 {
                                    0x3FDD07C1989C575Cu64
                                } else {
                                    0x3FDD6440FE7AFBA4u64
                                }
                            } else {
                                if i < 182 {
                                    0x3FDDC16B6D74CC48u64
                                } else {
                                    0x3FDE1F413F6F6D69u64
                                }
                            }
                        }
                    } else {
                        if i < 187 {
                            if i < 185 {
                                if i < 184 {
                                    0x3FDE7DC2CE09FF76u64
                                } else {
                                    0x3FDEDCF0729DB1E5u64
                                }
                            } else {
                                if i < 186 {
                                    0x3FDF3CCA863E5414u64
                                } else {
                                    0x3FDF9D5161BAE422u64
                                }
                            }
                        } else {
                            if i < 189 {
                                if i < 188 {
                                    0x3FDFFE855D9E1C13u64
                                } else {
                                    0x3FE0303369177E7Eu64
                                }
                            } else {
                                if i < 190 {
                                    0x3FE0617B0BB8AC41u64
                                } else {
                                    0x3FE09319C2932C44u64
                                }
                            }
                        }
                    }
                }
            }
        } else {
            if i < 223 {
                if i < 207 {
                    if i < 199 {
                        if i < 195 {
                            if i < 193 {
                                if i < 192 {
                                    0x3FE0C50FB966828Cu64
                                } else {
                                    0x3FE0F75D1BD1645Au64
                                }
                            } else {
                                if i < 194 {
                                    0x3FE12A021551F96Du64
                                } else {
                                    0x3FE15CFED1461C80u64
                                }
                            }
                        } else {
                            if i < 197 {
                                if i < 196 {
                                    0x3FE190537AEB9AF6u64
                                } else {
                                    0x3FE1C4003D6073B0u64
                                }
                            } else {
                                if i < 198 {
                                    0x3FE1F80543A3152Au64
                                } else {
                                    0x3FE22C62B8929AD0u64
                                }
                            }
                        }
                    } else {
                        if i < 203 {
                            if i < 201 {
                                if i < 200 {
                                    0x3FE26118C6EF098Eu64
                                } else {
                                    0x3FE2962799598BA9u64
                                }
                            } else {
                                if i < 202 {
                                    0x3FE2CB8F5A54ABD4u64
                                } else {
                                    0x3FE3015034448F96u64
                                }
                            }
                        } else {
                            if i < 205 {
                                if i < 204 {
                                    0x3FE3376A516F3100u64
                                } else {
                                    0x3FE36DDDDBFC97A0u64
                                }
                            } else {
                                if i < 206 {
                                    0x3FE3A4AAFDF710DCu64
                                } else {
                                    0x3FE3DBD1E14B6793u64
                                }
                            }
                        }
                    }
                } else {
                    if i < 215 {
                        if i < 211 {
                            if i < 209 {
                                if i < 208 {
                                    0x3FE41352AFC91B1Au64
                                } else {
                                    0x3FE44B2D93229592u64
                                }
                            } else {
                                if i < 210 {
                                    0x3FE48362B4ED61A0u64
                                } else {
                                    0x3FE4BBF23EA25F7Au64
                                }
                            }
                        } else {
                            if i < 213 {
                                if i < 212 {
                                    0x3FE4F4DC599DF963u64
                                } else {
                                    0x3FE52E212F205780u64
                                }
                            } else {
                                if i < 214 {
                                    0x3FE567C0E84D931Fu64
                                } else {
                                    0x3FE5A1BBAE2DE95Eu64
                                }
                            }
                        }
                    } else {
                        if i < 219 {
                            if i < 217 {
                                if i < 216 {
                                    0x3FE5DC11A9ADED42u64
                                } else {
                                    0x3FE616C3039EB942u64
                                }
                            } else {
                                if i < 218 {
                                    0x3FE651CFE4B62033u64
                                } else {
                                    0x3FE68D38758EDDBCu64
                                }
                            }
                        } else {
                            if i < 221 {
                                if i < 220 {
                                    0x3FE6C8FCDEA8C62Eu64
                                } else {
                                    0x3FE7051D4868F5D4u64
                                }
                            } else {
                                if i < 222 {
                                    0x3FE74199DB19FFC8u64
                                } else {
                                    0x3FE77E72BEEC1C3Eu64
                                }
                            }
                        }
                    }
                }
            } else {
                if i < 239 {
                    if i < 231 {
                        if i < 227 {
                            if i < 225 {
                                if i < 224 {
                                    0x3FE7BBA81BF55649u64
                                } else {
                                    0x3FE7F93A1A31B91Cu64
                                }
                            } else {
                                if i < 226 {
                                    0x3FE83728E1837CD6u64
                                } else {
                                    0x3FE8757499B332CEu64
                                }
                            }
                        } else {
                            if i < 229 {
                                if i < 228 {
                                    0x3FE8B41D6A6FF160u64
                                } else {
                                    0x3FE8F3237B4F7F47u64
                                }
                            } else {
                                if i < 230 {
                                    0x3FE93286F3CE7E75u64
                                } else {
                                    0x3FE97247FB509686u64
                                }
                            }
                        }
                    } else {
                        if i < 235 {
                            if i < 233 {
                                if i < 232 {
                                    0x3FE9B266B9209EB2u64
                                } else {
                                    0x3FE9F2E35470C74Eu64
                                }
                            } else {
                                if i < 234 {
                                    0x3FEA33BDF45AC2E6u64
                                } else {
                                    0x3FEA74F6BFDFEEDEu64
                                }
                            }
                        } else {
                            if i < 237 {
                                if i < 236 {
                                    0x3FEAB68DDDE97BA8u64
                                } else {
                                    0x3FEAF88375489496u64
                                }
                            } else {
                                if i < 238 {
                                    0x3FEB3AD7ACB68730u64
                                } else {
                                    0x3FEB7D8AAAD4EA3Fu64
                                }
                            }
                        }
                    }
                } else {
                    if i < 247 {
                        if i < 243 {
                            if i < 241 {
                                if i < 240 {
                                    0x3FEBC09C962DC450u64
                                } else {
                                    0x3FEC040D9533B1EBu64
                                }
                            } else {
                                if i < 242 {
                                    0x3FEC47DDCE420B56u64
                                } else {
                                    0x3FEC8C0D679D09FEu64
                                }
                            }
                        } else {
                            if i < 245 {
                                if i < 244 {
                                    0x3FECD09C8771ED7Eu64
                                } else {
                                    0x3FED158B53D7203Au64
                                }
                            } else {
                                if i < 246 {
                                    0x3FED5AD9F2CC5BABu64
                                } else {
                                    0x3FEDA0888A3ACC54u64
                                }
                            }
                        }
                    } else {
                        if i < 251 {
                            if i < 249 {
                                if i < 248 {
                                    0x3FEDE6973FF5353Eu64
                                } else {
                                    0x3FEE2D0639B8132Du64
                                }
                            } else {
                                if i < 250 {
                                    0x3FEE73D59D29BF82u64
                                } else {
                                    0x3FEEBB058FDA92B4u64
                                }
                            }
                        } else {
                            if i < 253 {
                                if i < 252 {
                                    0x3FEF02963745067Au64
                                } else {
                                    0x3FEF4A87B8CDD7A2u64
                                }
                            } else {
                                if i < 254 {
                                    0x3FEF92DA39C4278Cu64
                                } else {
                                    0x3FEFDB8DDF619D59u64
                                }
                            }
                        }
                    }
                }
            }
        }
    }
}

/// Forward table lookup: the linear intensity of an encoded byte, as a
/// binary64 bit pattern.  Total; pure constant data.
pub fn decode_byte(b: u8) -> (r: u64)
    ensures
        r == linear_bits(b as int),
{
    match b {
        0u8 => 0x0000000000000000u64,
        1u8 => 0x3F33E45677C176F7u64,
        2u8 => 0x3F43E45677C176F7u64,
        3u8 => 0x3F4DD681B3A23272u64,
        4u8 => 0x3F53E45677C176F7u64,
        5u8 => 0x3F58DD6C15B1D4B4u64,
        6u8 => 0x3F5DD681B3A23272u64,
        7u8 => 0x3F6167CBA8C94818u64,
        8u8 => 0x3F63E45677C176F7u64,
        9u8 => 0x3F6660E146B9A5D5u64,
        10u8 => 0x3F68DD6C15B1D4B4u64,
        11u8 => 0x3F6B6A31B5259C99u64,
        12u8 => 0x3F6E1E31D70C99DDu64,
        13u8 => 0x3F707C38BF8583A9u64,
        14u8 => 0x3F71FCC2BEED6421u64,
        15u8 => 0x3F7390FFAF95E279u64,
        16u8 => 0x3F753936CC7BC928u64,
        17u8 => 0x3F76F5ADDB50C915u64,
        18u8 => 0x3F78C6A94031B561u64,
        19u8 => 0x3F7AAC6C0FB97351u64,
        20u8 => 0x3F7CA7381F9F602Bu64,
        21u8 => 0x3F7EB74E160978D0u64,
        22u8 => 0x3F806E76BBDA92B8u64,
        23u8 => 0x3F818C2A5A8A8044u64,
        24u8 => 0x3F82B4E09B3F0AE3u64,
        25u8 => 0x3F83E8B7B3BDE965u64,
        26u8 => 0x3F8527CD60AF8B85u64,
        27u8 => 0x3F86723EEA8D3709u64,
        28u8 => 0x3F87C8292A3DB6B3u64,
        29u8 => 0x3F8929A88D67B521u64,
        30u8 => 0x3F8A96D91A8016BDu64,
        31u8 => 0x3F8C0FD67499FAB6u64,
        32u8 => 0x3F8D94BBDEFD740Eu64,
        33u8 => 0x3F8F25A44089883Fu64,
        34u8 => 0x3F9061551372C694u64,
        35u8 => 0x3F9135F3E4C2CCE2u64,
        36u8 => 0x3F9210BB8642B172u64,
        37u8 => 0x3F92F1B8C1AE46BDu64,
        38u8 => 0x3F93D8F839B79C0Bu64,
        39u8 => 0x3F94C6866B3E9FA4u64,
        40u8 => 0x3F95BA6FAE794313u64,
        41u8 => 0x3F96B4C0380D2DEEu64,
        42u8 => 0x3F97B5841A1BF3ACu64,
        43u8 => 0x3F98BCC74542ADDBu64,
        44u8 => 0x3F99CA95898DC8B5u64,
        45u8 => 0x3F9ADEFA9761C020u64,
        46u8 => 0x3F9BFA0200597BD9u64,
        47u8 => 0x3F9D1BB7381AEC1Fu64,
        48u8 => 0x3F9E442595227BCAu64,
        49u8 => 0x3F9F73585185E1B5u64,
        50u8 => 0x3FA054AD45D76878u64,
        51u8 => 0x3FA0F31BA386FF26u64,
        52u8 => 0x3FA194FCB663747Bu64,
        53u8 => 0x3FA23A55E62A662Au64,
        54u8 => 0x3FA2E32C8E148D11u64,
        55u8 => 0x3FA38F85FD21EACFu64,
        56u8 => 0x3FA43F67766310FFu64,
        57u8 => 0x3FA4F2D6313FA8D0u64,
        58u8 => 0x3FA5A9D759BA5ED0u64,
        59u8 => 0x3FA6647010B254EEu64,
        60u8 => 0x3FA722A56C2239EEu64,
        61u8 => 0x3FA7E47C775D2427u64,
        62u8 => 0x3FA8A9FA33494B07u64,
        63u8 => 0x3FA973239698B9CCu64,
        64u8 => 0x3FAA3FFD8E001389u64,
        65u8 => 0x3FAB108CFC6B7FBCu64,
        66u8 => 0x3FABE4D6BB31D522u64,
        67u8 => 0x3FACBCDF9A4616F2u64,
        68u8 => 0x3FAD98AC60675833u64,
        69u8 => 0x3FAE7841CB4F16DFu64,
        70u8 => 0x3FAF5BA48FDE2048u64,
        71u8 => 0x3FB0216CAD240765u64,
        72u8 => 0x3FB096F2671EB815u64,
        73u8 => 0x3FB10E65C38A5192u64,
        74u8 => 0x3FB187C90BF8BCE2u64,
        75u8 => 0x3FB2031E85F5D6DAu64,
        76u8 => 0x3FB28068731A1952u64,
        77u8 => 0x3FB2FFA9111CB94Bu64,
        78u8 => 0x3FB380E299E53F92u64,
        79u8 => 0x3FB40417439CA10Fu64,
        80u8 => 0x3FB4894940BDDBFBu64,
        81u8 => 0x3FB5107AC0261E59u64,
        82u8 => 0x3FB599ADED247AACu64,
        83u8 => 0x3FB624E4EF892ED4u64,
        84u8 => 0x3FB6B221EBB4817Eu64,
        85u8 => 0x3FB7416702A539D1u64,
        86u8 => 0x3FB7D2B65206B527u64,
        87u8 => 0x3FB86611F43E9E6Au64,
        88u8 => 0x3FB8FB7C007A4A70u64,
        89u8 => 0x3FB992F68ABBBC89u64,
        90u8 => 0x3FBA2C83A3E6566Du64,
        91u8 => 0x3FBAC82559CB3644u64,
        92u8 => 0x3FBB65DDB7354604u64,
        93u8 => 0x3FBC05AEC3F4FE5Eu64,
        94u8 => 0x3FBCA79A84EBE030u64,
        95u8 => 0x3FBD4BA2FC17A6A5u64,
        96u8 => 0x3FBDF1CA289D34B8u64,
        97u8 => 0x3FBE9A1206D34003u64,
        98u8 => 0x3FBF447C904CBB4Eu64,
        99u8 => 0x3FBFF10BBBE302C2u64,
        100u8 => 0x3FC04FE0BEDFE5F1u64,
        101u8 => 0x3FC0A84FE3B36D8Fu64,
        102u8 => 0x3FC101D443DFC06Fu64,
        103u8 => 0x3FC15C6ED58EEFDFu64,
        104u8 => 0x3FC1B8208DA5FEF0u64,
        105u8 => 0x3FC214EA5FC9514Au64,
        106u8 => 0x3FC272CD3E610123u64,
        107u8 => 0x3FC2D1CA1A9D1CFBu64,
        108u8 => 0x3FC331E1E479CDF5u64,
        109u8 => 0x3FC393158AC3674Eu64,
        110u8 => 0x3FC3F565FB1A5FD5u64,
        111u8 => 0x3FC458D421F735DFu64,
        112u8 => 0x3FC4BD60EAAE3E73u64,
        113u8 => 0x3FC5230D3F736034u64,
        114u8 => 0x3FC589DA095DBAA1u64,
        115u8 => 0x3FC5F1C8306B3A3Cu64,
        116u8 => 0x3FC65AD89B841A2Bu64,
        117u8 => 0x3FC6C50C307E53BFu64,
        118u8 => 0x3FC73063D420FC80u64,
        119u8 => 0x3FC79CE06A279303u64,
        120u8 => 0x3FC80A82D5453B5Du64,
        121u8 => 0x3FC8794BF727EB3Fu64,
        122u8 => 0x3FC8E93CB07B8679u64,
        123u8 => 0x3FC95A55E0ECEC0Bu64,
        124u8 => 0x3FC9CC98672CF47Eu64,
        125u8 => 0x3FCA400520F3619Cu64,
        126u8 => 0x3FCAB49CEB01C003u64,
        127u8 => 0x3FCB2A60A1263B0Au64,
        128u8 => 0x3FCBA1511E3E632Du64,
        129u8 => 0x3FCC196F3C39E76Fu64,
        130u8 => 0x3FCC92BBD41D41FEu64,
        131u8 => 0x3FCD0D37BE045851u64,
        132u8 => 0x3FCD88E3D1250F68u64,
        133u8 => 0x3FCE05C0E3D1D3E0u64,
        134u8 => 0x3FCE83CFCB7C16F0u64,
        135u8 => 0x3FCF03115CB6BFD3u64,
        136u8 => 0x3FCF83866B38924Du64,
        137u8 => 0x3FD00297E4EF4553u64,
        138u8 => 0x3FD044072557177Au64,
        139u8 => 0x3FD086115F6BEB3Au64,
        140u8 => 0x3FD0C8B6FB5C735Eu64,
        141u8 => 0x3FD10BF860EF039Au64,
        142u8 => 0x3FD14FD5F782A5A6u64,
        143u8 => 0x3FD1945026102997u64,
        144u8 => 0x3FD1D967532B31B1u64,
        145u8 => 0x3FD21F1BE50339E7u64,
        146u8 => 0x3FD2656E41649AE3u64,
        147u8 => 0x3FD2AC5ECDB988F8u64,
        148u8 => 0x3FD2F3EDEF0B0ED8u64,
        149u8 => 0x3FD33C1C0A020438u64,
        150u8 => 0x3FD384E982E800B1u64,
        151u8 => 0x3FD3CE56BDA84A81u64,
        152u8 => 0x3FD418641DD0C1BCu64,
        153u8 => 0x3FD463120692C7AFu64,
        154u8 => 0x3FD4AE60DAC4229Du64,
        155u8 => 0x3FD4FA50FCDFDE15u64,
        156u8 => 0x3FD546E2CF0727A9u64,
        157u8 => 0x3FD59416B3022858u64,
        158u8 => 0x3FD5E1ED0A40DAABu64,
        159u8 => 0x3FD6306635DBDD7Bu64,
        160u8 => 0x3FD67F82969543A2u64,
        161u8 => 0x3FD6CF428CD96079u64,
        162u8 => 0x3FD71FA678BF915Du64,
        163u8 => 0x3FD770AEBA0B042Au64,
        164u8 => 0x3FD7C25BB02B7AC5u64,
        165u8 => 0x3FD814ADBA3E0BD9u64,
        166u8 => 0x3FD867A5370DE0B1u64,
        167u8 => 0x3FD8BB428514F067u64,
        168u8 => 0x3FD90F86027CB84Eu64,
        169u8 => 0x3FD964700D1EF1B1u64,
        170u8 => 0x3FD9BA0102864521u64,
        171u8 => 0x3FDA10393FEEFAFDu64,
        172u8 => 0x3FDA67192247A9BEu64,
        173u8 => 0x3FDABEA10631E195u64,
        174u8 => 0x3FDB16D14802D5CAu64,
        175u8 => 0x3FDB6FAA43C403BBu64,
        176u8 => 0x3FDBC92C5533D785u64,
        177u8 => 0x3FDC2357D7C64E5Du64,
        178u8 => 0x3FDC7E2D26A596DEu64,
        179u8 => 0x3FDCD9AC9CB2AEF2u64,
        180u8 => 0x3FDD35D69485FFC5u64,
        181u8 => 0x3FDD92AB686FF782u64,
        182u8 => 0x3FDDF02B7279A10Du64,
        183u8 => 0x3FDE4E570C6539C5u64,
        184u8 => 0x3FDEAD2E8FAEC526u64,
        185u8 => 0x3FDF0CB2558C9EA4u64,
        186u8 => 0x3FDF6CE2B6F00983u64,
        187u8 => 0x3FDFCDC00C85BEC2u64,
        188u8 => 0x3FE017A5575B3CB2u64,
        189u8 => 0x3FE048C17AD3C04Bu64,
        190u8 => 0x3FE07A349C9D9837u64,
        191u8 => 0x3FE0ABFEE888C050u64,
        192u8 => 0x3FE0DE208A4444C8u64,
        193u8 => 0x3FE11099AD5E83EBu64,
        194u8 => 0x3FE1436A7D456EEFu64,
        195u8 => 0x3FE176932546CA12u64,
        196u8 => 0x3FE1AA13D0906BDAu64,
        197u8 => 0x3FE1DDECAA307B85u64,
        198u8 => 0x3FE2121DDD15AECEu64,
        199u8 => 0x3FE246A7940F86D1u64,
        200u8 => 0x3FE27B89F9CE8C4Bu64,
        201u8 => 0x3FE2B0C538E48B07u64,
        202u8 => 0x3FE2E6597BC4CCA0u64,
        203u8 => 0x3FE31C46ECC4528Du64,
        204u8 => 0x3FE3528DB61A0F73u64,
        205u8 => 0x3FE3892E01DF1FCCu64,
        206u8 => 0x3FE3C027FA0F01EBu64,
        207u8 => 0x3FE3F77BC887CD3Bu64,
        208u8 => 0x3FE42F29970A68F8u64,
        209u8 => 0x3FE467318F3AC22Du64,
        210u8 => 0x3FE49F93DAA00113u64,
        211u8 => 0x3FE4D850A2A4BDE1u64,
        212u8 => 0x3FE51168109734E5u64,
        213u8 => 0x3FE54ADA4DA97A1Bu64,
        214u8 => 0x3FE584A782F1AC23u64,
        215u8 => 0x3FE5BECFD96A2698u64,
        216u8 => 0x3FE5F95379F1B3EDu64,
        217u8 => 0x3FE634328D4BBE97u64,
        218u8 => 0x3FE66F6D3C2081CFu64,
        219u8 => 0x3FE6AB03AEFD39AAu64,
        220u8 => 0x3FE6E6F60E5452B1u64,
        221u8 => 0x3FE72344827D98F6u64,
        222u8 => 0x3FE75FEF33B6669Bu64,
        223u8 => 0x3FE79CF64A21D1E2u64,
        224u8 => 0x3FE7DA59EDC8DAB0u64,
        225u8 => 0x3FE8181A469A9787u64,
        226u8 => 0x3FE856377C6C6224u64,
        227u8 => 0x3FE894B1B6FA0377u64,
        228u8 => 0x3FE8D3891DE5DF49u64,
        229u8 => 0x3FE912BDD8B91F45u64,
        230u8 => 0x3FE952500EE3DDA5u64,
        231u8 => 0x3FE9923FE7BD4F67u64,
        232u8 => 0x3FE9D28D8A83EDFCu64,
        233u8 => 0x3FEA13391E5DA09Fu64,
        234u8 => 0x3FEA5442CA57E52Eu64,
        235u8 => 0x3FEA95AAB567F88Fu64,
        236u8 => 0x3FEAD771066AFEC2u64,
        237u8 => 0x3FEB1995E4262A69u64,
        238u8 => 0x3FEB5C197546E3F8u64,
        239u8 => 0x3FEB9EFBE062F086u64,
        240u8 => 0x3FEBE23D4BF8981Bu64,
        241u8 => 0x3FEC25DDDE6ECBBBu64,
        242u8 => 0x3FEC69DDBE154AF1u64,
        243u8 => 0x3FECAE3D1124C90Bu64,
        244u8 => 0x3FECF2FBFDBF11F1u64,
        245u8 => 0x3FED381AA9EF2E82u64,
        246u8 => 0x3FED7D993BA988D4u64,
        247u8 => 0x3FEDC377D8CC0FD5u64,
        248u8 => 0x3FEE09B6A71E5AA6u64,
        249u8 => 0x3FEE5055CC51CBB4u64,
        250u8 => 0x3FEE97556E01B351u64,
        251u8 => 0x3FEEDEB5B1B37216u64,
        252u8 => 0x3FEF2676BCD69ADEu64,
        253u8 => 0x3FEF6E98B4C51466u64,
        254u8 => 0x3FEFB71BBEC33AB2u64,
        255u8 => 0x3FF0000000000000u64,
    }
}

/// Midpoint table lookup.
fn mid_of(i: u8) -> (r: u64)
    requires
        i < 255,
    ensures
        r == mid_bits(i as int),
{
    match i {
        0u8 => 0x3F23E45677C176F7u64,
        1u8 => 0x3F3DD681B3A23272u64,
        2u8 => 0x3F48DD6C15B1D4B4u64,
        3u8 => 0x3F5167CBA8C94818u64,
        4u8 => 0x3F5660E146B9A5D6u64,
        5u8 => 0x3F5B59F6E4AA0393u64,
        6u8 => 0x3F602986414D30A8u64,
        7u8 => 0x3F62A61110455F88u64,
        8u8 => 0x3F65229BDF3D8E66u64,
        9u8 => 0x3F679F26AE35BD44u64,
        10u8 => 0x3F6A23CEE56BB8A6u64,
        11u8 => 0x3F6CC431C6191B3Bu64,
        12u8 => 0x3F6F8B51AB0BD098u64,
        13u8 => 0x3F713C7DBF3973E5u64,
        14u8 => 0x3F72C6E13741A34Du64,
        15u8 => 0x3F74651B3E08D5D0u64,
        16u8 => 0x3F76177253E6491Eu64,
        17u8 => 0x3F77DE2B8DC13F3Bu64,
        18u8 => 0x3F79B98AA7F59459u64,
        19u8 => 0x3F7BA9D217AC69BEu64,
        20u8 => 0x3F7DAF431AD46C7Eu64,
        21u8 => 0x3F7FCA1DC6DF4F20u64,
        22u8 => 0x3F80FD508B32897Eu64,
        23u8 => 0x3F8220857AE4C594u64,
        24u8 => 0x3F834ECC277E7A24u64,
        25u8 => 0x3F8488428A36BA75u64,
        26u8 => 0x3F85CD06259E6147u64,
        27u8 => 0x3F871D340A6576DEu64,
        28u8 => 0x3F8878E8DBD2B5EAu64,
        29u8 => 0x3F89E040D3F3E5EFu64,
        30u8 => 0x3F8B5357C78D08BAu64,
        31u8 => 0x3F8CD24929CBB762u64,
        32u8 => 0x3F8E5D300FC37E26u64,
        33u8 => 0x3F8FF42733B78AB4u64,
        34u8 => 0x3F90CBA47C1AC9BBu64,
        35u8 => 0x3F91A357B582BF2Au64,
        36u8 => 0x3F92813A23F87C18u64,
        37u8 => 0x3F9365587DB2F164u64,
        38u8 => 0x3F944FBF527B1DD8u64,
        39u8 => 0x3F95407B0CDBF15Cu64,
        40u8 => 0x3F963797F3433880u64,
        41u8 => 0x3F973522291490CDu64,
        42u8 => 0x3F983925AFAF50C4u64,
        43u8 => 0x3F9943AE67683B48u64,
        44u8 => 0x3F9A54C81077C46Au64,
        45u8 => 0x3F9B6C7E4BDD9DFCu64,
        46u8 => 0x3F9C8ADC9C3A33FCu64,
        47u8 => 0x3F9DAFEE669EB3F4u64,
        48u8 => 0x3F9EDBBEF3542EC0u64,
        49u8 => 0x3FA0072CB74D2CA9u64,
        50u8 => 0x3FA0A3E474AF33CFu64,
        51u8 => 0x3FA1440C2CF539D0u64,
        52u8 => 0x3FA1E7A94E46ED52u64,
        53u8 => 0x3FA28EC13A1F799Eu64,
        54u8 => 0x3FA33959459B3BF0u64,
        55u8 => 0x3FA3E776B9C27DE7u64,
        56u8 => 0x3FA4991ED3D15CE8u64,
        57u8 => 0x3FA54E56C57D03D0u64,
        58u8 => 0x3FA60723B53659DFu64,
        59u8 => 0x3FA6C38ABE6A476Eu64,
        60u8 => 0x3FA78390F1BFAF0Au64,
        61u8 => 0x3FA8473B55533797u64,
        62u8 => 0x3FA90E8EE4F1026Au64,
        63u8 => 0x3FA9D990924C66AAu64,
        64u8 => 0x3FAAA8454535C9A2u64,
        65u8 => 0x3FAB7AB1DBCEAA6Fu64,
        66u8 => 0x3FAC50DB2ABBF60Au64,
        67u8 => 0x3FAD2AC5FD56B792u64,
        68u8 => 0x3FAE087715DB3789u64,
        69u8 => 0x3FAEE9F32D969B94u64,
        70u8 => 0x3FAFCF3EF5131789u64,
        71u8 => 0x3FB05C2F8A215FBDu64,
        72u8 => 0x3FB0D2AC155484D4u64,
        73u8 => 0x3FB14B1767C1873Au64,
        74u8 => 0x3FB1C573C8F749DEu64,
        75u8 => 0x3FB241C37C87F816u64,
        76u8 => 0x3FB2C008C21B694Eu64,
        77u8 => 0x3FB34045D580FC6Eu64,
        78u8 => 0x3FB3C27CEEC0F050u64,
        79u8 => 0x3FB446B0422D3E85u64,
        80u8 => 0x3FB4CCE20071FD2Au64,
        81u8 => 0x3FB5551456A54C82u64,
        82u8 => 0x3FB5DF496E56D4C0u64,
        83u8 => 0x3FB66B836D9ED829u64,
        84u8 => 0x3FB6F9C4772CDDA8u64,
        85u8 => 0x3FB78A0EAA55F77Cu64,
        86u8 => 0x3FB81C642322A9C8u64,
        87u8 => 0x3FB8B0C6FA5C746Du64,
        88u8 => 0x3FB94739459B037Cu64,
        89u8 => 0x3FB9DFBD1751097Bu64,
        90u8 => 0x3FBA7A547ED8C658u64,
        91u8 => 0x3FBB170188803E24u64,
        92u8 => 0x3FBBB5C63D952231u64,
        93u8 => 0x3FBC56A4A4706F47u64,
        94u8 => 0x3FBCF99EC081C36Au64,
        95u8 => 0x3FBD9EB6925A6DAEu64,
        96u8 => 0x3FBE45EE17B83A5Eu64,
        97u8 => 0x3FBEEF474B8FFDA8u64,
        98u8 => 0x3FBF9AC42617DF08u64,
        99u8 => 0x3FC024334E68B3A9u64,
        100u8 => 0x3FC07C185149A9C0u64,
        101u8 => 0x3FC0D51213C996FFu64,
        102u8 => 0x3FC12F218CB75827u64,
        103u8 => 0x3FC18A47B19A7768u64,
        104u8 => 0x3FC1E68576B7A81Du64,
        105u8 => 0x3FC243DBCF152936u64,
        106u8 => 0x3FC2A24BAC7F0F0Fu64,
        107u8 => 0x3FC301D5FF8B7578u64,
        108u8 => 0x3FC3627BB79E9AA2u64,
        109u8 => 0x3FC3C43DC2EEE392u64,
        110u8 => 0x3FC4271D0E88CADAu64,
        111u8 => 0x3FC48B1A8652BA29u64,
        112u8 => 0x3FC4F0371510CF54u64,
        113u8 => 0x3FC55673A4688D6Au64,
        114u8 => 0x3FC5BDD11CE47A6Eu64,
        115u8 => 0x3FC6265065F7AA34u64,
        116u8 => 0x3FC68FF2660136F5u64,
        117u8 => 0x3FC6FAB8024FA820u64,
        118u8 => 0x3FC766A21F2447C2u64,
        119u8 => 0x3FC7D3B19FB66730u64,
        120u8 => 0x3FC841E76636934Eu64,
        121u8 => 0x3FC8B14453D1B8DCu64,
        122u8 => 0x3FC921C948B43942u64,
        123u8 => 0x3FC99377240CF044u64,
        124u8 => 0x3FCA064EC4102B0Du64,
        125u8 => 0x3FCA7A5105FA90D0u64,
        126u8 => 0x3FCAEF7EC613FD86u64,
        127u8 => 0x3FCB65D8DFB24F1Cu64,
        128u8 => 0x3FCBDD602D3C254Eu64,
        129u8 => 0x3FCC5615882B94B6u64,
        130u8 => 0x3FCCCFF9C910CD28u64,
        131u8 => 0x3FCD4B0DC794B3DCu64,
        132u8 => 0x3FCDC7525A7B71A4u64,
        133u8 => 0x3FCE44C857A6F568u64,
        134u8 => 0x3FCEC37094196B62u64,
        135u8 => 0x3FCF434BE3F7A910u64,
        136u8 => 0x3FCFC45B1A8B8E7Au64,
        137u8 => 0x3FD0234F85232E66u64,
        138u8 => 0x3FD0650C4261815Au64,
        139u8 => 0x3FD0A7642D642F4Cu64,
        140u8 => 0x3FD0EA57AE25BB7Cu64,
        141u8 => 0x3FD12DE72C38D4A0u64,
        142u8 => 0x3FD172130EC9679Eu64,
        143u8 => 0x3FD1B6DBBC9DADA4u64,
        144u8 => 0x3FD1FC419C1735CCu64,
        145u8 => 0x3FD242451333EA65u64,
        146u8 => 0x3FD288E6878F11EEu64,
        147u8 => 0x3FD2D0265E624BE8u64,
        148u8 => 0x3FD31804FC868988u64,
        149u8 => 0x3FD36082C6750274u64,
        150u8 => 0x3FD3A9A020482599u64,
        151u8 => 0x3FD3F35D6DBC861Eu64,
        152u8 => 0x3FD43DBB1231C4B6u64,
        153u8 => 0x3FD488B970AB7526u64,
        154u8 => 0x3FD4D458EBD20059u64,
        155u8 => 0x3FD52099E5F382DFu64,
        156u8 => 0x3FD56D7CC104A800u64,
        157u8 => 0x3FD5BB01DEA18182u64,
        158u8 => 0x3FD60929A00E5C13u64,
        159u8 => 0x3FD657F46638908Eu64,
        160u8 => 0x3FD6A76291B7520Eu64,
        161u8 => 0x3FD6F77482CC78EBu64,
        162u8 => 0x3FD7482A99654AC4u64,
        163u8 => 0x3FD79985351B3F78u64,
        164u8 => 0x3FD7EB84B534C34Fu64,
        165u8 => 0x3FD83E2978A5F645u64,
        166u8 => 0x3FD89173DE11688Cu64,
        167u8 => 0x3FD8E56443C8D45Au64,
        168u8 => 0x3FD939FB07CDD500u64,
        169u8 => 0x3FD98F3887D29B69u64,
        170u8 => 0x3FD9E51D213AA00Fu64,
        171u8 => 0x3FDA3BA9311B525Eu64,
        172u8 => 0x3FDA92DD143CC5AAu64,
        173u8 => 0x3FDAEAB9271A5BB0u64,
        174u8 => 0x3FDB433DC5E36CC2u64,
        175u8 => 0x3FDB9C6B4C7BEDA0u64,
        176u8 => 0x3FDBF642167D12F1u64,
        177u8 => 0x3FDC50C27F35F29Eu64,
        178u8 => 0x3FDCABECE1AC22E8u64,
        179u8 => 0x3FDD07C1989C575Cu64,
        180u8 => 0x3FDD6440FE7AFBA4u64,
        181u8 => 0x3FDDC16B6D74CC48u64,
        182u8 => 0x3FDE1F413F6F6D69u64,
        183u8 => 0x3FDE7DC2CE09FF76u64,
        184u8 => 0x3FDEDCF0729DB1E5u64,
        185u8 => 0x3FDF3CCA863E5414u64,
        186u8 => 0x3FDF9D5161BAE422u64,
        187u8 => 0x3FDFFE855D9E1C13u64,
        188u8 => 0x3FE0303369177E7Eu64,
        189u8 => 0x3FE0617B0BB8AC41u64,
        190u8 => 0x3FE09319C2932C44u64,
        191u8 => 0x3FE0C50FB966828Cu64,
        192u8 => 0x3FE0F75D1BD1645Au64,
        193u8 => 0x3FE12A021551F96Du64,
        194u8 => 0x3FE15CFED1461C80u64,
        195u8 => 0x3FE190537AEB9AF6u64,
        196u8 => 0x3FE1C4003D6073B0u64,
        197u8 => 0x3FE1F80543A3152Au64,
        198u8 => 0x3FE22C62B8929AD0u64,
        199u8 => 0x3FE26118C6EF098Eu64,
        200u8 => 0x3FE2962799598BA9u64,
        201u8 => 0x3FE2CB8F5A54ABD4u64,
        202u8 => 0x3FE3015034448F96u64,
        203u8 => 0x3FE3376A516F3100u64,
        204u8 => 0x3FE36DDDDBFC97A0u64,
        205u8 => 0x3FE3A4AAFDF710DCu64,
        206u8 => 0x3FE3DBD1E14B6793u64,
        207u8 => 0x3FE41352AFC91B1Au64,
        208u8 => 0x3FE44B2D93229592u64,
        209u8 => 0x3FE48362B4ED61A0u64,
        210u8 => 0x3FE4BBF23EA25F7Au64,
        211u8 => 0x3FE4F4DC599DF963u64,
        212u8 => 0x3FE52E212F205780u64,
        213u8 => 0x3FE567C0E84D931Fu64,
        214u8 => 0x3FE5A1BBAE2DE95Eu64,
        215u8 => 0x3FE5DC11A9ADED42u64,
        216u8 => 0x3FE616C3039EB942u64,
        217u8 => 0x3FE651CFE4B62033u64,
        218u8 => 0x3FE68D38758EDDBCu64,
        219u8 => 0x3FE6C8FCDEA8C62Eu64,
        220u8 => 0x3FE7051D4868F5D4u64,
        221u8 => 0x3FE74199DB19FFC8u64,
        222u8 => 0x3FE77E72BEEC1C3Eu64,
        223u8 => 0x3FE7BBA81BF55649u64,
        224u8 => 0x3FE7F93A1A31B91Cu64,
        225u8 => 0x3FE83728E1837CD6u64,
        226u8 => 0x3FE8757499B332CEu64,
        227u8 => 0x3FE8B41D6A6FF160u64,
        228u8 => 0x3FE8F3237B4F7F47u64,
        229u8 => 0x3FE93286F3CE7E75u64,
        230u8 => 0x3FE97247FB509686u64,
        231u8 => 0x3FE9B266B9209EB2u64,
        232u8 => 0x3FE9F2E35470C74Eu64,
        233u8 => 0x3FEA33BDF45AC2E6u64,
        234u8 => 0x3FEA74F6BFDFEEDEu64,
        235u8 => 0x3FEAB68DDDE97BA8u64,
        236u8 => 0x3FEAF88375489496u64,
        237u8 => 0x3FEB3AD7ACB68730u64,
        238u8 => 0x3FEB7D8AAAD4EA3Fu64,
        239u8 => 0x3FEBC09C962DC450u64,
        240u8 => 0x3FEC040D9533B1EBu64,
        241u8 => 0x3FEC47DDCE420B56u64,
        242u8 => 0x3FEC8C0D679D09FEu64,
        243u8 => 0x3FECD09C8771ED7Eu64,
        244u8 => 0x3FED158B53D7203Au64,
        245u8 => 0x3FED5AD9F2CC5BABu64,
        246u8 => 0x3FEDA0888A3ACC54u64,
        247u8 => 0x3FEDE6973FF5353Eu64,
        248u8 => 0x3FEE2D0639B8132Du64,
        249u8 => 0x3FEE73D59D29BF82u64,
        250u8 => 0x3FEEBB058FDA92B4u64,
        251u8 => 0x3FEF02963745067Au64,
        252u8 => 0x3FEF4A87B8CDD7A2u64,
        253u8 => 0x3FEF92DA39C4278Cu64,
        254u8 => 0x3FEFDB8DDF619D59u64,
        _ => 0u64,
    }
}

/// Index of the first midpoint at position `i` or above that lies
/// strictly above the value `v`, in the IEEE order; 255 where none does.
pub open spec fn encode_scan(v: u64, i: int) -> u8
    decreases 255 - i,
{
    if i < 0 || i >= 255 {
        255u8
    } else if lt_bits(v, mid_bits(i)) {
        i as u8
    } else {
        encode_scan(v, i + 1)
    }
}

/// The byte that the linear value with bit pattern `v` encodes to: the
/// smallest index whose midpoint lies strictly above `v`, and 255 where
/// no midpoint does.  A not-a-number value compares below no midpoint
/// and encodes to 255.
pub open spec fn encode_linear_spec(v: u64) -> u8 {
    encode_scan(v, 0)
}

/// Threshold classification of a linear value into the nearest encoded
/// byte: a linear scan of the monotonically increasing midpoint table.
pub fn encode_linear(v: u64) -> (r: u8)
    ensures
        r == encode_linear_spec(v),
{
    let mut i: u8 = 0;
    while i < 255
        invariant
            i <= 255,
            encode_scan(v, 0) == encode_scan(v, i as int),
        decreases 255 - i,
    {
        if f64_lt(v, mid_of(i)) {
            return i;
        }
        i = i + 1;
    }
    255
}

proof fn lemma_le_one_abs(a: u64)
    requires
        a <= 0x3FF0_0000_0000_0000,
    ensures
        a & 0x7FFF_FFFF_FFFF_FFFF == a,
        a & 0x8000_0000_0000_0000 == 0,
        !(a & 0x7FFF_FFFF_FFFF_FFFF > 0x7FF0_0000_0000_0000),
{
    assert(a <= 0x3FF0_0000_0000_0000 ==> (a & 0x7FFF_FFFF_FFFF_FFFF == a
        && a & 0x8000_0000_0000_0000 == 0
        && !(a & 0x7FFF_FFFF_FFFF_FFFF > 0x7FF0_0000_0000_0000))) by (bit_vector);
}

/// For two bit patterns that are at most the pattern of 1.0 (hence
/// non-negative and finite), the IEEE order is the unsigned order of the
/// patterns.
pub proof fn lemma_lt_bits_is_bit_order(a: u64, b: u64)
    requires
        a <= POS_ONE,
        b <= POS_ONE,
    ensures
        lt_bits(a, b) == (a < b),
{
    lemma_le_one_abs(a);
    lemma_le_one_abs(b);
}

/// Every entry of both tables is at most the bit pattern of 1.0.
pub proof fn lemma_table_bounds()
    ensures
        forall|i: int| 0 <= i < 256 ==> #[trigger] linear_bits(i) <= POS_ONE,
        forall|i: int| 0 <= i < 255 ==> #[trigger] mid_bits(i) <= POS_ONE,
{
    assert forall|i: int| 0 <= i < 256 implies #[trigger] linear_bits(i) <= POS_ONE by {};
    assert forall|i: int| 0 <= i < 255 implies #[trigger] mid_bits(i) <= POS_ONE by {};
}

/// The midpoint entries interleave the forward entries strictly: each
/// forward entry lies below its midpoint, which lies below the next
/// forward entry.
pub proof fn lemma_tables_interleaved()
    ensures
        forall|i: int| 0 <= i < 255 ==> #[trigger] linear_bits(i) < mid_bits(i),
        forall|i: int| 0 <= i < 255 ==> #[trigger] mid_bits(i) < linear_bits(i + 1),
{
    assert forall|i: int| 0 <= i < 255 implies #[trigger] linear_bits(i) < mid_bits(i) by {};
    assert forall|i: int| 0 <= i < 255 implies #[trigger] mid_bits(i) < linear_bits(i + 1) by {};
}

/// The forward table increases weakly with the index (strictly, through
/// the interleaved midpoints).
pub proof fn lemma_table_mono(i: int, j: int)
    requires
        0 <= i <= j < 256,
    ensures
        linear_bits(i) <= linear_bits(j),
    decreases j - i,
{
    if i < j {
        lemma_tables_interleaved();
        lemma_table_mono(i, j - 1);
        assert(linear_bits(j - 1) < mid_bits(j - 1));
        assert(mid_bits(j - 1) < linear_bits(j));
    }
}

proof fn lemma_scan_from(v: u64, i: int, b: int)
    requires
        0 <= i <= b <= 255,
        forall|j: int| i <= j < b ==> !lt_bits(v, #[trigger] mid_bits(j)),
    ensures
        encode_scan(v, i) == encode_scan(v, b),
    decreases b - i,
{
    if i < b {
        lemma_scan_from(v, i + 1, b);
    }
}

/// Law: decoding any byte and re-encoding the resulting linear intensity
/// restores the byte, bit-exactly.
pub proof fn lemma_gamma_round_trip(b: u8)
    ensures
        encode_linear_spec(linear_bits(b as int)) == b,
{
    let v = linear_bits(b as int);
    lemma_tables_interleaved();
    lemma_table_bounds();
    assert forall|j: int| 0 <= j < b as int implies !lt_bits(v, #[trigger] mid_bits(j)) by {
        lemma_table_mono(j + 1, b as int);
        lemma_lt_bits_is_bit_order(v, mid_bits(j));
    };
    lemma_scan_from(v, 0, b as int);
    if b < 255 {
        lemma_lt_bits_is_bit_order(v, mid_bits(b as int));
        assert(encode_scan(v, b as int) == b);
    }
}


proof fn lemma_scan_characterization(v: u64, i: int)
    requires
        0 <= i <= 255,
    ensures
        i <= encode_scan(v, i) as int <= 255,
        forall|j: int| i <= j < encode_scan(v, i) as int ==> !lt_bits(v, #[trigger] mid_bits(j)),
        (encode_scan(v, i) as int) < 255 ==> lt_bits(v, mid_bits(encode_scan(v, i) as int)),
    decreases 255 - i,
{
    if i < 255 && !lt_bits(v, mid_bits(i)) {
        lemma_scan_characterization(v, i + 1);
    }
}

/// Law: the encoded byte of a linear value is the smallest index whose
/// midpoint lies strictly above the value — every midpoint below the
/// returned index is at most the value, and the midpoint at the returned
/// index, where there is one, lies strictly above it.
pub proof fn lemma_encode_characterization(v: u64)
    ensures
        forall|j: int| 0 <= j < encode_linear_spec(v) as int ==> !lt_bits(v, #[trigger] mid_bits(j)),
        (encode_linear_spec(v) as int) < 255 ==> lt_bits(v, mid_bits(encode_linear_spec(v) as int)),
{
    lemma_scan_characterization(v, 0);
}

} // verus!
